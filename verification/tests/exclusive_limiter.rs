use ratelimiter_rs::QpsLimiter;
use ratelimiter_rs::RateLimiter;
use ratelimiter_rs::RateUnit;

/// A per-second bucket that was last refilled at `time`, with one token in
/// use at a burst size of `burst_size`.
fn bucket_refilled_at(time: i64, burst_size: i32) -> RateLimiter {
    let mut limiter = RateLimiter::new();
    limiter.reset();
    assert!(limiter.acquire_by_time(burst_size, 1000, time));
    limiter
}

#[test]
fn burst_then_refusal_at_one_time() {
    let mut limiter = RateLimiter::new();
    limiter.reset();
    for _ in 0..10 {
        assert!(limiter.acquire_by_time(10, 10, 0));
    }
    assert!(!limiter.acquire_by_time(10, 10, 0));
    assert!(!limiter.acquire_by_time(10, 10, 0));
}

#[test]
fn ten_per_second_scenario() {
    let mut limiter = RateLimiter::new();
    limiter.reset();
    for _ in 0..10 {
        assert!(limiter.acquire_by_time(10, 10, 0));
    }
    assert!(!limiter.acquire_by_time(10, 10, 0));
    // One second later the whole burst is back.
    for _ in 0..10 {
        assert!(limiter.acquire_by_time(10, 10, 1000));
    }
    assert!(!limiter.acquire_by_time(10, 10, 1000));
}

#[test]
fn one_interval_gives_one_token() {
    let mut limiter = bucket_refilled_at(5000, 10);
    for _ in 1..10 {
        assert!(limiter.acquire_by_time(10, 10, 5000));
    }
    assert!(!limiter.acquire_by_time(10, 10, 5000));
    assert!(!limiter.acquire_by_time(10, 10, 5099));
    assert!(limiter.acquire_by_time(10, 10, 5100));
    assert!(!limiter.acquire_by_time(10, 10, 5100));
    assert!(limiter.acquire_by_time(10, 10, 5200));
    assert!(!limiter.acquire_by_time(10, 10, 5200));
}

#[test]
fn unused_rest_of_time_counts_toward_next_token() {
    let mut limiter = bucket_refilled_at(5000, 1);
    // 150 ms at 10 per second: one token, 50 ms carried over.
    assert!(limiter.acquire_by_time(1, 10, 5150));
    assert!(!limiter.acquire_by_time(1, 10, 5199));
    assert!(limiter.acquire_by_time(1, 10, 5200));
}

#[test]
fn refill_stops_at_burst_size() {
    let mut limiter = bucket_refilled_at(5000, 3);
    // A long pause returns no more than the burst.
    for _ in 0..3 {
        assert!(limiter.acquire_by_time(3, 10, 100_000));
    }
    assert!(!limiter.acquire_by_time(3, 10, 100_000));
}

#[test]
fn non_positive_burst_size_limits_nothing() {
    let mut limiter = bucket_refilled_at(5000, 1);
    for _ in 0..100 {
        assert!(limiter.acquire_by_time(0, 10, 5000));
        assert!(limiter.acquire_by_time(-1, 10, 5000));
        assert!(limiter.acquire_by_time(i32::MIN, 10, 9000));
    }
    // The bucket is as it was: full at burst size 1, one token free at 2.
    assert!(!limiter.acquire_by_time(1, 1000, 5000));
    assert!(limiter.acquire_by_time(2, 1000, 5000));
    assert!(!limiter.acquire_by_time(2, 1000, 5000));
}

#[test]
fn non_positive_rate_limits_nothing() {
    let mut limiter = bucket_refilled_at(5000, 1);
    for _ in 0..100 {
        assert!(limiter.acquire_by_time(1, 0, 5000));
        assert!(limiter.acquire_by_time(1, -1, 7000));
        assert!(limiter.acquire_by_time(1, i64::MIN, 9000));
    }
    // Neither a token was taken nor the refill time moved to 9000.
    assert!(!limiter.acquire_by_time(1, 1000, 5000));
    assert!(limiter.acquire_by_time(1, 1000, 5001));
}

#[test]
fn reset_gives_the_burst_back() {
    let mut limiter = bucket_refilled_at(5000, 4);
    while limiter.acquire_by_time(4, 10, 5000) {}
    limiter.reset();
    for _ in 0..4 {
        assert!(limiter.acquire_by_time(4, 10, 5000));
    }
    assert!(!limiter.acquire_by_time(4, 10, 5000));
}

#[test]
fn first_call_after_reset_grants_no_more_than_the_burst() {
    let mut limiter = RateLimiter::new();
    limiter.reset();
    let now: i64 = 1_700_000_000_000;
    for _ in 0..5 {
        assert!(limiter.acquire_by_time(5, 10, now));
    }
    assert!(!limiter.acquire_by_time(5, 10, now));
    assert!(limiter.acquire_by_time(5, 10, now + 100));
    assert!(!limiter.acquire_by_time(5, 10, now + 100));
}

#[test]
fn shrunken_burst_size_refuses_until_refilled() {
    let mut limiter = bucket_refilled_at(5000, 10);
    for _ in 1..10 {
        assert!(limiter.acquire_by_time(10, 10, 5000));
    }
    // Ten in use, burst size now 4: full, and one interval frees one of 4.
    assert!(!limiter.acquire_by_time(4, 10, 5000));
    assert!(limiter.acquire_by_time(4, 10, 5100));
    assert!(!limiter.acquire_by_time(4, 10, 5100));
}

#[test]
fn time_running_backward_refills_nothing() {
    let mut limiter = bucket_refilled_at(5000, 1);
    assert!(!limiter.acquire_by_time(1, 10, 4000));
    assert!(!limiter.acquire_by_time(1, 10, -4000));
    assert!(limiter.acquire_by_time(1, 10, 5100));
}

#[test]
fn per_minute_bucket() {
    let mut limiter = RateLimiter::new_by_unit(RateUnit::Minutes);
    limiter.reset();
    assert!(limiter.acquire_by_time(1, 6, 1_000_000));
    assert!(!limiter.acquire_by_time(1, 6, 1_009_999));
    assert!(limiter.acquire_by_time(1, 6, 1_010_000));
}

#[test]
fn bucket_by_conversion_factor() {
    let mut limiter = RateLimiter::new_by_conversion(10);
    limiter.reset();
    assert!(limiter.acquire_by_time(1, 7, 1000));
    // 49 / 10 = 4 tokens for 7 ms, and the refill time moves on by 5 ms only.
    assert!(limiter.acquire_by_time(1, 7, 1007));
    assert!(limiter.acquire_by_time(1, 7, 1007));
    assert!(!limiter.acquire_by_time(1, 7, 1007));
}

#[test]
fn new_bucket_is_refilled_up_to_the_present() {
    let mut limiter = RateLimiter::new();
    // One token per second: the second call comes within the same second.
    assert!(limiter.acquire(1, 1));
    assert!(!limiter.acquire(1, 1));
}

#[test]
fn clone_is_a_bucket_of_its_own() {
    let mut limiter = bucket_refilled_at(5000, 2);
    let mut copy = limiter.clone();
    assert!(limiter.acquire_by_time(2, 10, 5000));
    assert!(!limiter.acquire_by_time(2, 10, 5000));
    assert!(copy.acquire_by_time(2, 10, 5000));
    assert!(!copy.acquire_by_time(2, 10, 5000));
}

#[test]
fn default_bucket_serves_calls_that_limit_nothing() {
    let mut limiter = RateLimiter::default();
    assert!(limiter.acquire_by_time(0, 10, 5000));
    assert!(limiter.acquire(10, 0));
}

#[test]
fn qps_limiter_has_burst_size_one() {
    let mut limiter = QpsLimiter::new(1);
    assert!(limiter.acquire());
    assert!(!limiter.acquire());
}

#[test]
fn qps_limiter_with_burst_size() {
    let mut limiter = QpsLimiter::new(1).set_burst_size(3);
    for _ in 0..3 {
        assert!(limiter.acquire());
    }
    assert!(!limiter.acquire());
}

#[test]
fn qps_burst_size_is_at_least_one() {
    let mut limiter = QpsLimiter::new(1).set_burst_size(0);
    assert!(limiter.acquire());
    assert!(!limiter.acquire());
    let mut limiter = QpsLimiter::new(1).set_burst_size(u32::MAX);
    assert!(limiter.acquire());
    assert!(!limiter.acquire());
}

#[test]
fn qps_limit_of_zero_limits_nothing() {
    let mut limiter = QpsLimiter::new(0);
    for _ in 0..100 {
        assert!(limiter.acquire());
    }
}

#[test]
fn qps_limit_beyond_63_bits_limits_nothing() {
    let mut limiter = QpsLimiter::new(1).set_second_limit(u64::MAX);
    for _ in 0..100 {
        assert!(limiter.acquire());
    }
}

#[test]
fn qps_second_limit_can_be_set() {
    let mut limiter = QpsLimiter::new(0).set_second_limit(1);
    assert!(limiter.acquire());
    assert!(!limiter.acquire());
}

#[test]
fn qps_reset_gives_the_burst_back() {
    let mut limiter = QpsLimiter::new(1).set_burst_size(2);
    assert!(limiter.acquire());
    assert!(limiter.acquire());
    assert!(!limiter.acquire());
    limiter.reset();
    assert!(limiter.acquire());
    assert!(limiter.acquire());
    assert!(!limiter.acquire());
}

#[test]
fn default_qps_limiter_limits_nothing() {
    let mut limiter = QpsLimiter::default();
    for _ in 0..10 {
        assert!(limiter.acquire());
    }
}
