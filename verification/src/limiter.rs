//! The token bucket for a single owner, and the per-second limiter on top of
//! it.

use crate::bucket::due_refill;
use crate::bucket::limiting;
use crate::bucket::return_tokens;
use crate::bucket::take_token;
use crate::bucket::Bucket;
use crate::clock::now_as_bucket_time;
use crate::unit::RateUnit;
use vstd::prelude::*;

verus! {

/// A token bucket that its owner alone changes.
///
/// The bucket keeps no burst size and no rate: each call of `acquire` names
/// both, and they may differ from call to call.
#[derive(Debug)]
pub struct RateLimiter {
    pub(crate) rate_to_ms_conversion: i32,
    pub(crate) consumed_tokens: i32,
    pub(crate) last_refill_time: i64,
}

impl View for RateLimiter {
    type V = Bucket;

    closed spec fn view(&self) -> Bucket {
        Bucket {
            conversion_factor: self.rate_to_ms_conversion as int,
            consumed: self.consumed_tokens as int,
            last_refill_time: self.last_refill_time as int,
        }
    }
}

impl Clone for RateLimiter {
    fn clone(&self) -> (copy: Self)
        ensures
            copy@ == self@,
    {
        RateLimiter {
            rate_to_ms_conversion: self.rate_to_ms_conversion,
            consumed_tokens: self.consumed_tokens,
            last_refill_time: self.last_refill_time,
        }
    }
}

impl Default for RateLimiter {
    /// The all-zero bucket: nothing in use, never refilled, and no conversion
    /// factor yet, so it serves only calls that limit nothing.
    fn default() -> (limiter: Self)
        ensures
            limiter@ == (Bucket { conversion_factor: 0, consumed: 0, last_refill_time: 0 }),
    {
        RateLimiter { rate_to_ms_conversion: 0, consumed_tokens: 0, last_refill_time: 0 }
    }
}

impl RateLimiter {
    /// A bucket for rates per second, refilled up to the present.
    pub fn new() -> (limiter: Self)
        ensures
            exists|now: i64| limiter@ == #[trigger] Bucket::made_at(1000, now as int),
            limiter@.conversion_factor == 1000,
            limiter@.consumed == 0,
    {
        Self::new_by_unit(RateUnit::Seconds)
    }

    /// A bucket for rates per `unit`, refilled up to the present.
    pub fn new_by_unit(unit: RateUnit) -> (limiter: Self)
        ensures
            exists|now: i64| limiter@ == #[trigger] Bucket::made_at(unit.millis(), now as int),
            limiter@.conversion_factor == unit.millis(),
            limiter@.consumed == 0,
    {
        Self::new_by_conversion(unit.get_rate_to_conversion())
    }

    /// A bucket for rates per `rate_to_ms_conversion` milliseconds, with
    /// nothing in use and refilled up to the present reading of the clock.
    pub fn new_by_conversion(rate_to_ms_conversion: i32) -> (limiter: Self)
        ensures
            exists|now: i64|
                limiter@ == #[trigger] Bucket::made_at(rate_to_ms_conversion as int, now as int),
            limiter@.conversion_factor == rate_to_ms_conversion,
            limiter@.consumed == 0,
    {
        let now: i64 = now_as_bucket_time();
        let limiter = Self { rate_to_ms_conversion, consumed_tokens: 0, last_refill_time: now };
        assert(limiter@ == Bucket::made_at(rate_to_ms_conversion as int, now as int));
        limiter
    }

    /// `acquire_by_time` at the present reading of the clock.
    pub fn acquire(&mut self, burst_size: i32, average_rate: i64) -> (ok: bool)
        requires
            limiting(burst_size as int, average_rate as int) ==> old(self)@.conversion_factor != 0,
        ensures
            exists|now: i64|
                {
                    &&& ok == #[trigger] old(self)@.grants(
                        burst_size as int,
                        average_rate as int,
                        now as int,
                    )
                    &&& final(self)@ == old(self)@.acquire(
                        burst_size as int,
                        average_rate as int,
                        now as int,
                    )
                },
            !limiting(burst_size as int, average_rate as int) ==> ok && final(self)@ == old(self)@,
            final(self)@.conversion_factor == old(self)@.conversion_factor,
    {
        let now: i64 = now_as_bucket_time();
        let ok = self.acquire_by_time(burst_size, average_rate, now);
        assert(ok == old(self)@.grants(burst_size as int, average_rate as int, now as int));
        ok
    }

    /// Refills the bucket for the time passed up to `current_time_millis` and
    /// takes a token if one is free; tells whether it did. Where `burst_size`
    /// or `average_rate` is not positive nothing is limited: the answer is
    /// yes and the bucket stays as it is.
    pub fn acquire_by_time(
        &mut self,
        burst_size: i32,
        average_rate: i64,
        current_time_millis: i64,
    ) -> (ok: bool)
        requires
            limiting(burst_size as int, average_rate as int) ==> old(self)@.conversion_factor != 0,
        ensures
            ok == old(self)@.grants(
                burst_size as int,
                average_rate as int,
                current_time_millis as int,
            ),
            final(self)@ == old(self)@.acquire(
                burst_size as int,
                average_rate as int,
                current_time_millis as int,
            ),
            !limiting(burst_size as int, average_rate as int) ==> ok && final(self)@ == old(self)@,
    {
        if burst_size <= 0 || average_rate <= 0 {
            return true;
        }
        self.refill_token(burst_size, average_rate, current_time_millis);
        self.consume_token(burst_size)
    }

    fn refill_token(&mut self, burst_size: i32, average_rate: i64, current_time_millis: i64)
        requires
            average_rate > 0,
            old(self)@.conversion_factor != 0,
        ensures
            final(self)@ == old(self)@.refill(
                burst_size as int,
                average_rate as int,
                current_time_millis as int,
            ),
    {
        match due_refill(
            self.last_refill_time,
            average_rate,
            self.rate_to_ms_conversion,
            current_time_millis,
        ) {
            None => {},
            Some(refill) => {
                self.last_refill_time = refill.until;
                self.consumed_tokens = return_tokens(
                    self.consumed_tokens,
                    burst_size,
                    refill.tokens,
                );
            },
        }
    }

    fn consume_token(&mut self, burst_size: i32) -> (ok: bool)
        ensures
            ok == old(self)@.has_room(burst_size as int),
            final(self)@ == old(self)@.consume(burst_size as int),
    {
        match take_token(self.consumed_tokens, burst_size) {
            None => false,
            Some(level) => {
                self.consumed_tokens = level;
                true
            },
        }
    }

    /// Empties the bucket and marks it as never refilled; the conversion
    /// factor stays.
    pub fn reset(&mut self)
        ensures
            final(self)@ == old(self)@.cleared(),
    {
        self.consumed_tokens = 0;
        self.last_refill_time = 0;
    }
}

/// The burst size that a per-second limiter keeps for a requested one: the
/// request itself where it is at least 1 and fits 31 bits, else 1.
pub open spec fn burst_size_kept(requested: u32) -> int {
    if 1 <= requested <= i32::MAX {
        requested as int
    } else {
        1
    }
}

/// The rate that a per-second limiter keeps for a requested limit: the
/// request read as a signed 64-bit number. Requests of 2^63 and more come out
/// negative, and a rate that is not positive limits nothing.
pub open spec fn rate_kept(requested: u64) -> int {
    if requested <= i64::MAX {
        requested as int
    } else {
        requested - 0x1_0000_0000_0000_0000
    }
}

pub(crate) fn burst_size_from(requested: u32) -> (burst_size: i32)
    ensures
        burst_size == burst_size_kept(requested),
{
    if 1 <= requested && requested <= 0x7fff_ffff {
        requested as i32
    } else {
        1
    }
}

pub(crate) fn rate_from(requested: u64) -> (rate: i64)
    ensures
        rate == rate_kept(requested),
{
    if requested <= 0x7fff_ffff_ffff_ffff {
        requested as i64
    } else {
        (requested - 0x8000_0000_0000_0000) as i64 + i64::MIN
    }
}

/// What a per-second limiter holds: its bucket, and the burst size and rate
/// that it hands to the bucket with every call.
pub struct QpsState {
    pub bucket: Bucket,
    pub burst_size: int,
    pub qps_limit: int,
}

impl QpsState {
    /// Whether a call that limits something can be served: the bucket then
    /// needs a conversion factor other than 0.
    pub open spec fn usable(self) -> bool {
        limiting(self.burst_size, self.qps_limit) ==> self.bucket.conversion_factor != 0
    }

    /// Whether `acquire` at `now` lets the caller through.
    pub open spec fn grants(self, now: int) -> bool {
        self.bucket.grants(self.burst_size, self.qps_limit, now)
    }

    /// The limiter after `acquire` at `now`.
    pub open spec fn acquire(self, now: int) -> QpsState {
        QpsState { bucket: self.bucket.acquire(self.burst_size, self.qps_limit, now), ..self }
    }
}

/// A limiter of calls per second on a bucket of its own, with a burst size
/// of 1 unless another is set.
#[derive(Debug)]
pub struct QpsLimiter {
    inner_limit: RateLimiter,
    burst_size: i32,
    qps_limit: i64,
}

impl View for QpsLimiter {
    type V = QpsState;

    closed spec fn view(&self) -> QpsState {
        QpsState {
            bucket: self.inner_limit@,
            burst_size: self.burst_size as int,
            qps_limit: self.qps_limit as int,
        }
    }
}

impl Clone for QpsLimiter {
    fn clone(&self) -> (copy: Self)
        ensures
            copy@ == self@,
    {
        QpsLimiter {
            inner_limit: self.inner_limit.clone(),
            burst_size: self.burst_size,
            qps_limit: self.qps_limit,
        }
    }
}

impl Default for QpsLimiter {
    /// The all-zero limiter, which limits nothing until a burst size and a
    /// rate are set, and whose bucket has no conversion factor.
    fn default() -> (limiter: Self)
        ensures
            limiter@ == (QpsState {
                bucket: Bucket { conversion_factor: 0, consumed: 0, last_refill_time: 0 },
                burst_size: 0,
                qps_limit: 0,
            }),
    {
        QpsLimiter { inner_limit: RateLimiter::default(), burst_size: 0, qps_limit: 0 }
    }
}

impl QpsLimiter {
    /// A limiter of `qps_limit` calls per second with a burst size of 1, its
    /// bucket empty and refilled up to the present.
    pub fn new(qps_limit: u64) -> (limiter: Self)
        ensures
            exists|now: i64| limiter@.bucket == #[trigger] Bucket::made_at(1000, now as int),
            limiter@.burst_size == 1,
            limiter@.qps_limit == rate_kept(qps_limit),
            limiter@.bucket.conversion_factor == 1000,
            limiter@.bucket.consumed == 0,
    {
        Self { burst_size: 1, inner_limit: RateLimiter::new(), qps_limit: rate_from(qps_limit) }
    }

    /// The same limiter with another burst size, which is at least 1.
    pub fn set_burst_size(self, burst_size: u32) -> (limiter: Self)
        ensures
            limiter@ == (QpsState { burst_size: burst_size_kept(burst_size), ..self@ }),
    {
        let mut limiter = self;
        limiter.burst_size = burst_size_from(burst_size);
        limiter
    }

    /// The same limiter with another number of calls per second.
    pub fn set_second_limit(self, qps_limit: u64) -> (limiter: Self)
        ensures
            limiter@ == (QpsState { qps_limit: rate_kept(qps_limit), ..self@ }),
    {
        let mut limiter = self;
        limiter.qps_limit = rate_from(qps_limit);
        limiter
    }

    /// Asks the bucket for a token at the present reading of the clock, with
    /// the burst size and rate of this limiter.
    pub fn acquire(&mut self) -> (ok: bool)
        requires
            old(self)@.usable(),
        ensures
            exists|now: i64|
                {
                    &&& ok == #[trigger] old(self)@.grants(now as int)
                    &&& final(self)@ == old(self)@.acquire(now as int)
                },
            !limiting(old(self)@.burst_size, old(self)@.qps_limit) ==> ok && final(self)@ == old(
                self,
            )@,
            final(self)@.usable(),
            final(self)@.burst_size == old(self)@.burst_size,
            final(self)@.qps_limit == old(self)@.qps_limit,
    {
        let ok = self.inner_limit.acquire(self.burst_size, self.qps_limit);
        proof {
            let now = choose|now: i64|
                {
                    &&& ok == #[trigger] old(self).inner_limit@.grants(
                        self.burst_size as int,
                        self.qps_limit as int,
                        now as int,
                    )
                    &&& self.inner_limit@ == old(self).inner_limit@.acquire(
                        self.burst_size as int,
                        self.qps_limit as int,
                        now as int,
                    )
                };
            assert(ok == old(self)@.grants(now as int));
        }
        ok
    }

    /// Empties the bucket and marks it as never refilled; burst size and rate
    /// stay.
    pub fn reset(&mut self)
        ensures
            final(self)@ == (QpsState { bucket: old(self)@.bucket.cleared(), ..old(self)@ }),
    {
        self.inner_limit.reset()
    }
}

} // verus!
