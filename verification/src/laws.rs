//! What holds of a token bucket over whole runs of calls.
//!
//! The laws are stated of [`Bucket`], the model in which the limiters state
//! what `acquire` and `reset` do, and so hold of every run of calls on a
//! [`crate::RateLimiter`].

use crate::bucket::div_toward_zero;
use crate::bucket::lemma_product_sign;
use crate::bucket::lemma_whole_tokens_within_span;
use crate::bucket::limiting;
use crate::bucket::Bucket;
use crate::bucket::Call;
use vstd::prelude::*;

verus! {

/// No time, no tokens: at the time up to which a bucket is refilled nothing
/// is due.
proof fn lemma_nothing_due_at_refill_time(bucket: Bucket, average_rate: int)
    requires
        bucket.conversion_factor != 0,
    ensures
        bucket.due(average_rate, bucket.last_refill_time) == 0,
{
    let c = bucket.conversion_factor;
    assert(0 * average_rate == 0);
    assert(div_toward_zero(0, c) == 0) by (nonlinear_arith)
        requires
            c != 0,
    ;
}

/// A call that limits nothing lets the caller through and leaves the bucket
/// as it is.
pub proof fn lemma_call_without_limit(bucket: Bucket, burst_size: int, average_rate: int, now: int)
    requires
        burst_size <= 0 || average_rate <= 0,
    ensures
        bucket.grants(burst_size, average_rate, now),
        bucket.acquire(burst_size, average_rate, now) == bucket,
{
}

/// However many calls that limit nothing are made, at whatever times, the
/// bucket stays as it is; a call that limits again finds the room that it
/// would have found without them.
pub proof fn lemma_calls_without_limit_change_nothing(bucket: Bucket, calls: Seq<Call>)
    requires
        forall|i: int|
            0 <= i < calls.len() ==> !limiting(
                (#[trigger] calls[i]).burst_size,
                calls[i].average_rate,
            ),
    ensures
        bucket.after(calls) == bucket,
    decreases calls.len(),
{
    if calls.len() > 0 {
        lemma_calls_without_limit_change_nothing(bucket, calls.drop_last());
    }
}

/// Whether a bucket is fresh at `now`: nothing is in use, and it was refilled
/// up to `now`, as a bucket made at `now` is, or never, as a bucket is after
/// `reset`.
pub open spec fn fresh_at(bucket: Bucket, now: int) -> bool {
    bucket.consumed == 0 && (bucket.last_refill_time == now || bucket.last_refill_time == 0)
}

/// Whether every call of `calls` names `burst_size` and `average_rate` and
/// comes at `now`.
pub open spec fn all_alike(calls: Seq<Call>, burst_size: int, average_rate: int, now: int) -> bool {
    forall|i: int|
        0 <= i < calls.len() ==> #[trigger] calls[i] == (Call { burst_size, average_rate, now })
}

/// What calls at one time leave of a fresh bucket: as many tokens in use as
/// calls were made, up to the burst size, and after the first call a refill
/// time at which nothing more is due.
proof fn lemma_fresh_bucket_after_calls(
    bucket: Bucket,
    burst_size: int,
    average_rate: int,
    now: int,
    calls: Seq<Call>,
)
    requires
        fresh_at(bucket, now),
        limiting(burst_size, average_rate),
        bucket.conversion_factor != 0,
        all_alike(calls, burst_size, average_rate, now),
        calls.len() <= burst_size,
    ensures
        bucket.after(calls).consumed == calls.len(),
        bucket.after(calls).conversion_factor == bucket.conversion_factor,
        calls.len() == 0 ==> bucket.after(calls) == bucket,
        calls.len() > 0 ==> bucket.after(calls).due(average_rate, now) <= 0,
    decreases calls.len(),
{
    if calls.len() > 0 {
        let earlier = calls.drop_last();
        lemma_fresh_bucket_after_calls(bucket, burst_size, average_rate, now, earlier);
        let before = bucket.after(earlier);
        assert(calls.last() == (Call { burst_size, average_rate, now }));
        let refilled = before.refill(burst_size, average_rate, now);
        if before.due(average_rate, now) > 0 {
            assert(earlier.len() == 0);
            if before.last_refill_time == now {
                lemma_nothing_due_at_refill_time(before, average_rate);
            }
            assert(refilled.last_refill_time == now);
            assert(refilled.consumed == 0);
            lemma_nothing_due_at_refill_time(refilled, average_rate);
        } else {
            assert(refilled == before);
        }
        assert(bucket.after(calls) == refilled.consume(burst_size));
    }
}

/// Of calls at one time on a fresh bucket exactly `burst_size` are let
/// through: each call that fewer than `burst_size` calls went before is, and
/// the call that comes after `burst_size` calls is not.
pub proof fn lemma_fresh_bucket_grants_burst_size_calls(
    bucket: Bucket,
    burst_size: int,
    average_rate: int,
    now: int,
    calls: Seq<Call>,
)
    requires
        fresh_at(bucket, now),
        limiting(burst_size, average_rate),
        bucket.conversion_factor != 0,
        all_alike(calls, burst_size, average_rate, now),
        calls.len() <= burst_size,
    ensures
        bucket.after(calls).consumed == calls.len(),
        bucket.after(calls).grants(burst_size, average_rate, now) == (calls.len() < burst_size),
{
    lemma_fresh_bucket_after_calls(bucket, burst_size, average_rate, now, calls);
    if calls.len() == 0 && bucket.last_refill_time == now {
        lemma_nothing_due_at_refill_time(bucket, average_rate);
    }
}

/// After `reset` a bucket behaves as a fresh one, whatever it held: of calls
/// at one time exactly `burst_size` are let through.
pub proof fn lemma_reset_bucket_grants_burst_size_calls(
    bucket: Bucket,
    burst_size: int,
    average_rate: int,
    now: int,
    calls: Seq<Call>,
)
    requires
        limiting(burst_size, average_rate),
        bucket.conversion_factor != 0,
        all_alike(calls, burst_size, average_rate, now),
        calls.len() <= burst_size,
    ensures
        fresh_at(bucket.cleared(), now),
        bucket.cleared().after(calls).consumed == calls.len(),
        bucket.cleared().after(calls).grants(burst_size, average_rate, now) == (calls.len()
            < burst_size),
{
    lemma_fresh_bucket_grants_burst_size_calls(bucket.cleared(), burst_size, average_rate, now, calls);
}

/// One interval after the last refill an exhausted bucket has one token to
/// give: where the rate divides the conversion factor and `now` is
/// `conversion_factor / average_rate` past the refill time, the call at `now`
/// is let through and the next call at `now` is not.
pub proof fn lemma_one_interval_grants_one_call(
    bucket: Bucket,
    burst_size: int,
    average_rate: int,
    now: int,
)
    requires
        limiting(burst_size, average_rate),
        bucket.conversion_factor > 0,
        bucket.conversion_factor % average_rate == 0,
        bucket.consumed >= burst_size,
        now == bucket.last_refill_time + bucket.conversion_factor / average_rate,
    ensures
        bucket.due(average_rate, now) == 1,
        bucket.grants(burst_size, average_rate, now),
        bucket.acquire(burst_size, average_rate, now).consumed == burst_size,
        bucket.acquire(burst_size, average_rate, now).last_refill_time == now,
        !bucket.acquire(burst_size, average_rate, now).grants(burst_size, average_rate, now),
{
    let c = bucket.conversion_factor;
    let interval = c / average_rate;
    assert(interval * average_rate == c && c / c == 1 && 1 * c == c) by (nonlinear_arith)
        requires
            c > 0,
            average_rate > 0,
            c % average_rate == 0,
            interval == c / average_rate,
    ;
    assert(now - bucket.last_refill_time == interval);
    assert(bucket.due(average_rate, now) == 1);
    let next = bucket.acquire(burst_size, average_rate, now);
    assert(next.last_refill_time == now);
    lemma_nothing_due_at_refill_time(next, average_rate);
}

/// A call never changes the conversion factor, leaves a level that was not
/// negative not negative, and leaves a level that was within the burst size
/// of the call within it.
pub proof fn lemma_call_keeps_level_in_range(
    bucket: Bucket,
    burst_size: int,
    average_rate: int,
    now: int,
)
    ensures
        bucket.acquire(burst_size, average_rate, now).conversion_factor
            == bucket.conversion_factor,
        bucket.consumed >= 0 ==> bucket.acquire(burst_size, average_rate, now).consumed >= 0,
        bucket.consumed <= burst_size ==> bucket.acquire(burst_size, average_rate, now).consumed
            <= burst_size,
{
}

/// With a positive conversion factor the refill time never goes back, and a
/// refill moves it no further than to the time of the call.
pub proof fn lemma_refill_time_moves_forward(
    bucket: Bucket,
    burst_size: int,
    average_rate: int,
    now: int,
)
    requires
        bucket.conversion_factor > 0,
    ensures
        bucket.last_refill_time <= bucket.acquire(burst_size, average_rate, now).last_refill_time,
        bucket.acquire(burst_size, average_rate, now).last_refill_time == bucket.last_refill_time
            || bucket.acquire(burst_size, average_rate, now).last_refill_time <= now,
{
    if limiting(burst_size, average_rate) && bucket.due(average_rate, now) > 0 {
        let elapsed = now - bucket.last_refill_time;
        lemma_product_sign(elapsed, average_rate);
        assert(elapsed > 0);
        lemma_whole_tokens_within_span(elapsed, average_rate, bucket.conversion_factor);
        lemma_product_sign(bucket.due(average_rate, now), bucket.conversion_factor);
    }
}

} // verus!
