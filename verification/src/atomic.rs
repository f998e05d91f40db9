//! The token bucket that many callers share, and the per-second limiter on
//! top of it.
//!
//! The two counters of a shared bucket are atomic integers, each brought up
//! to date by compare-and-exchange, without a lock. What another caller does
//! between two steps of a call cannot be known, so the contracts here state
//! what holds of every interleaving; the arithmetic of each step is that of
//! [`crate::bucket`], where it is stated exactly.

use crate::bucket::due_refill;
use crate::bucket::limiting;
use crate::bucket::return_tokens;
use crate::bucket::room_at;
use crate::bucket::take_token;
use crate::clock::now_as_bucket_time;
use crate::limiter::burst_size_from;
use crate::limiter::burst_size_kept;
use crate::limiter::rate_from;
use crate::limiter::rate_kept;
use crate::unit::RateUnit;
use std::sync::atomic::AtomicI32;
use std::sync::atomic::AtomicI64;
use std::sync::atomic::Ordering;
use std::sync::Arc;
use vstd::prelude::*;

verus! {

/// `AtomicI32::fetch_update` with relaxed ordering and [`take_token`] as the
/// update: the counter goes up by one unless it has reached `burst_size`,
/// however often other callers change it meanwhile. The result is the value
/// that this update met: `Ok` of a value below `burst_size` where the counter
/// was raised, `Err` of a value that is not below it where it was left alone.
#[verifier::external_body]
fn fetch_take(level: &AtomicI32, burst_size: i32) -> (met: Result<i32, i32>)
    ensures
        match met {
            Ok(held) => held < burst_size,
            Err(held) => held >= burst_size,
        },
{
    level.fetch_update(Ordering::Relaxed, Ordering::Relaxed, |held| take_token(held, burst_size))
}

/// `AtomicI32::fetch_update` with relaxed ordering and [`return_tokens`] as
/// the update: `tokens` are returned to the counter, however often other
/// callers change it meanwhile. Nothing of the counter is visible afterwards,
/// so nothing is claimed.
#[verifier::external_body]
fn fetch_return(level: &AtomicI32, burst_size: i32, tokens: i128)
    requires
        tokens > 0,
{
    let _ = level.fetch_update(
        Ordering::Relaxed,
        Ordering::Relaxed,
        |held| Some(return_tokens(held, burst_size, tokens)),
    );
}

/// `Arc::clone`: one more handle on the bucket that `bucket` points to. The
/// new handle points to the same bucket, so what it points to is equal.
#[verifier::external_body]
fn share(bucket: &Arc<AtomicRateLimiter>) -> (handle: Arc<AtomicRateLimiter>)
    ensures
        handle == *bucket,
{
    Arc::clone(bucket)
}

/// A token bucket that any number of callers may use at once.
///
/// The bucket keeps no burst size and no rate: each call of `acquire` names
/// both, and they may differ from call to call.
#[derive(Debug)]
pub struct AtomicRateLimiter {
    pub(crate) rate_to_ms_conversion: i32,
    pub(crate) consumed_tokens: AtomicI32,
    pub(crate) last_refill_time: AtomicI64,
}

impl Default for AtomicRateLimiter {
    /// The all-zero bucket: nothing in use, never refilled, and no conversion
    /// factor yet, so it serves only calls that limit nothing.
    fn default() -> (limiter: Self)
        ensures
            limiter.conversion_factor() == 0,
    {
        AtomicRateLimiter {
            rate_to_ms_conversion: 0,
            consumed_tokens: AtomicI32::new(0),
            last_refill_time: AtomicI64::new(0),
        }
    }
}

impl AtomicRateLimiter {
    /// Milliseconds per unit of the rate; fixed when the bucket is made.
    pub closed spec fn conversion_factor(&self) -> int {
        self.rate_to_ms_conversion as int
    }

    /// A bucket for rates per second, refilled up to the present.
    pub fn new() -> (limiter: Self)
        ensures
            limiter.conversion_factor() == 1000,
    {
        Self::new_by_unit(RateUnit::Seconds)
    }

    /// A bucket for rates per `unit`, refilled up to the present.
    pub fn new_by_unit(unit: RateUnit) -> (limiter: Self)
        ensures
            limiter.conversion_factor() == unit.millis(),
    {
        Self::new_by_conversion(unit.get_rate_to_conversion())
    }

    /// A bucket for rates per `rate_to_ms_conversion` milliseconds, with
    /// nothing in use and refilled up to the present reading of the clock.
    pub fn new_by_conversion(rate_to_ms_conversion: i32) -> (limiter: Self)
        ensures
            limiter.conversion_factor() == rate_to_ms_conversion,
    {
        Self {
            rate_to_ms_conversion,
            consumed_tokens: AtomicI32::new(0),
            last_refill_time: AtomicI64::new(now_as_bucket_time()),
        }
    }

    /// `acquire_by_time` at the present reading of the clock.
    pub fn acquire(&self, burst_size: i32, average_rate: i64) -> (ok: bool)
        requires
            limiting(burst_size as int, average_rate as int) ==> self.conversion_factor() != 0,
        ensures
            !limiting(burst_size as int, average_rate as int) ==> ok,
    {
        self.acquire_by_time(burst_size, average_rate, now_as_bucket_time())
    }

    /// Refills the bucket for the time passed up to `current_time_millis` and
    /// takes a token if one is free; tells whether it did. Where `burst_size`
    /// or `average_rate` is not positive nothing is limited: the answer is
    /// yes and no counter is touched.
    pub fn acquire_by_time(
        &self,
        burst_size: i32,
        average_rate: i64,
        current_time_millis: i64,
    ) -> (ok: bool)
        requires
            limiting(burst_size as int, average_rate as int) ==> self.conversion_factor() != 0,
        ensures
            !limiting(burst_size as int, average_rate as int) ==> ok,
    {
        if burst_size <= 0 || average_rate <= 0 {
            return true;
        }
        self.refill_token(burst_size, average_rate, current_time_millis);
        self.consume_token(burst_size)
    }

    /// Reads the refill time once and works out the refill that is due from
    /// it. The caller that moves the refill time on from the value it read
    /// returns the tokens; one that finds the time moved by another leaves
    /// the returning to that other.
    fn refill_token(&self, burst_size: i32, average_rate: i64, current_time_millis: i64)
        requires
            average_rate > 0,
            self.conversion_factor() != 0,
    {
        let refill_time: i64 = self.last_refill_time.load(Ordering::Relaxed);
        match due_refill(refill_time, average_rate, self.rate_to_ms_conversion, current_time_millis) {
            None => {},
            Some(refill) => {
                if self.last_refill_time.compare_exchange(
                    refill_time,
                    refill.until,
                    Ordering::Relaxed,
                    Ordering::Relaxed,
                ).is_ok() {
                    fetch_return(&self.consumed_tokens, burst_size, refill.tokens);
                }
            },
        }
    }

    /// Takes a token unless `burst_size` are in use, whatever other callers
    /// do meanwhile, and tells whether it did: the answer is whether the
    /// level that its update met left room.
    fn consume_token(&self, burst_size: i32) -> (ok: bool)
        ensures
            exists|held: i32| ok == #[trigger] room_at(held as int, burst_size as int),
    {
        let met = fetch_take(&self.consumed_tokens, burst_size);
        match met {
            Ok(held) => {
                assert(room_at(held as int, burst_size as int));
                true
            },
            Err(held) => {
                assert(!room_at(held as int, burst_size as int));
                false
            },
        }
    }

    /// Empties the bucket and marks it as never refilled, one counter after
    /// the other; the conversion factor stays.
    pub fn reset(&self) {
        self.consumed_tokens.swap(0, Ordering::Relaxed);
        self.last_refill_time.swap(0, Ordering::Relaxed);
    }
}

/// What is fixed of a shared per-second limiter: the conversion factor of its
/// bucket, and the burst size and rate that it hands to the bucket with every
/// call.
pub struct AtomicQpsState {
    pub conversion_factor: int,
    pub burst_size: int,
    pub qps_limit: int,
}

impl AtomicQpsState {
    /// Whether a call that limits something can be served: the bucket then
    /// needs a conversion factor other than 0.
    pub open spec fn usable(self) -> bool {
        limiting(self.burst_size, self.qps_limit) ==> self.conversion_factor != 0
    }
}

/// A limiter of calls per second on a shared bucket, with a burst size of 1
/// unless another is set. Its clones draw on the same bucket.
#[derive(Debug)]
pub struct AtomicQpsLimiter {
    inner_limit: Arc<AtomicRateLimiter>,
    burst_size: i32,
    qps_limit: i64,
}

impl View for AtomicQpsLimiter {
    type V = AtomicQpsState;

    closed spec fn view(&self) -> AtomicQpsState {
        AtomicQpsState {
            conversion_factor: self.inner_limit.conversion_factor(),
            burst_size: self.burst_size as int,
            qps_limit: self.qps_limit as int,
        }
    }
}

impl Clone for AtomicQpsLimiter {
    /// One more limiter on the same bucket, with the same burst size and
    /// rate.
    fn clone(&self) -> (copy: Self)
        ensures
            copy@ == self@,
    {
        AtomicQpsLimiter {
            inner_limit: share(&self.inner_limit),
            burst_size: self.burst_size,
            qps_limit: self.qps_limit,
        }
    }
}

impl Default for AtomicQpsLimiter {
    /// The all-zero limiter, which limits nothing until a burst size and a
    /// rate are set, and whose bucket has no conversion factor.
    fn default() -> (limiter: Self)
        ensures
            limiter@ == (AtomicQpsState { conversion_factor: 0, burst_size: 0, qps_limit: 0 }),
    {
        AtomicQpsLimiter {
            inner_limit: Arc::new(AtomicRateLimiter::default()),
            burst_size: 0,
            qps_limit: 0,
        }
    }
}

impl AtomicQpsLimiter {
    /// A limiter of `qps_limit` calls per second with a burst size of 1, on a
    /// new bucket that is empty and refilled up to the present.
    pub fn new(qps_limit: u64) -> (limiter: Self)
        ensures
            limiter@ == (AtomicQpsState {
                conversion_factor: 1000,
                burst_size: 1,
                qps_limit: rate_kept(qps_limit),
            }),
    {
        Self {
            burst_size: 1,
            inner_limit: Arc::new(AtomicRateLimiter::new()),
            qps_limit: rate_from(qps_limit),
        }
    }

    /// The same limiter, on the same bucket, with another burst size, which
    /// is at least 1.
    pub fn set_burst_size(self, burst_size: u32) -> (limiter: Self)
        ensures
            limiter@ == (AtomicQpsState { burst_size: burst_size_kept(burst_size), ..self@ }),
    {
        let mut limiter = self;
        limiter.burst_size = burst_size_from(burst_size);
        limiter
    }

    /// The same limiter, on the same bucket, with another number of calls per
    /// second.
    pub fn set_second_limit(self, qps_limit: u64) -> (limiter: Self)
        ensures
            limiter@ == (AtomicQpsState { qps_limit: rate_kept(qps_limit), ..self@ }),
    {
        let mut limiter = self;
        limiter.qps_limit = rate_from(qps_limit);
        limiter
    }

    /// Asks the bucket for a token at the present reading of the clock, with
    /// the burst size and rate of this limiter.
    pub fn acquire(&self) -> (ok: bool)
        requires
            self@.usable(),
        ensures
            !limiting(self@.burst_size, self@.qps_limit) ==> ok,
    {
        self.inner_limit.acquire(self.burst_size, self.qps_limit)
    }

    /// Empties the bucket and marks it as never refilled; burst size and rate
    /// stay.
    pub fn reset(&self) {
        self.inner_limit.reset()
    }
}

} // verus!
