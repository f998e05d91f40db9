//! The arithmetic of a token bucket, and the mathematical model of one.
//!
//! [`Bucket`] is a bucket over unbounded integers; its functions say what a
//! refill, a consume and a whole `acquire` do. The executable functions below
//! compute the same steps on machine integers, in 128 bits where a product
//! needs the room, and are what both limiters are built from.

use vstd::prelude::*;

verus! {

/// The quotient of `a` by `b`, rounded toward zero. Meaningful for `b != 0`.
pub open spec fn div_toward_zero(a: int, b: int) -> int {
    if b > 0 {
        if a >= 0 {
            a / b
        } else {
            -((-a) / b)
        }
    } else {
        if a >= 0 {
            -(a / (-b))
        } else {
            (-a) / (-b)
        }
    }
}

/// The whole tokens that the time from `last_refill_time` to `now` is worth,
/// at `average_rate` tokens per `conversion_factor` milliseconds. Not positive
/// when too little time has passed, or when `now` lies before the last refill.
pub open spec fn tokens_due(
    last_refill_time: int,
    average_rate: int,
    conversion_factor: int,
    now: int,
) -> int {
    div_toward_zero((now - last_refill_time) * average_rate, conversion_factor)
}

/// The time up to which a bucket is refilled once `tokens` whole tokens have
/// been granted. A bucket that was never refilled (time 0) starts at `now`.
/// Any other moves on by the time that the whole tokens took, so that the rest
/// of the time passed counts toward the next token.
pub open spec fn refill_time_after(
    last_refill_time: int,
    tokens: int,
    average_rate: int,
    conversion_factor: int,
    now: int,
) -> int {
    if last_refill_time == 0 {
        now
    } else {
        last_refill_time + div_toward_zero(tokens * conversion_factor, average_rate)
    }
}

/// The number of tokens in use after `tokens` have been returned to a bucket
/// that had `consumed` in use: what was in use counts for at most
/// `burst_size`, and not more is returned than was in use.
pub open spec fn level_after_refill(consumed: int, burst_size: int, tokens: int) -> int {
    let capped = if consumed < burst_size {
        consumed
    } else {
        burst_size
    };
    if capped - tokens < 0 {
        0
    } else {
        capped - tokens
    }
}

/// Whether a bucket with `consumed` tokens in use has one left to take at a
/// burst size of `burst_size`.
pub open spec fn room_at(consumed: int, burst_size: int) -> bool {
    consumed < burst_size
}

/// Whether `burst_size` and `average_rate` limit anything. A burst size or a
/// rate that is not positive switches limiting off.
pub open spec fn limiting(burst_size: int, average_rate: int) -> bool {
    burst_size > 0 && average_rate > 0
}

/// One call of `acquire`: the burst size and the rate that it names, and the
/// time at which it comes.
pub struct Call {
    pub burst_size: int,
    pub average_rate: int,
    pub now: int,
}

/// A token bucket over unbounded integers.
pub struct Bucket {
    /// Milliseconds per unit of the rate.
    pub conversion_factor: int,
    /// Tokens in use out of the burst allowance.
    pub consumed: int,
    /// The time in milliseconds up to which the bucket is refilled; 0 while it
    /// was never refilled.
    pub last_refill_time: int,
}

impl Bucket {
    /// The bucket that is made at `now`: nothing in use, and refilled up to
    /// the time of its making.
    pub open spec fn made_at(conversion_factor: int, now: int) -> Bucket {
        Bucket { conversion_factor, consumed: 0, last_refill_time: now }
    }

    /// The whole tokens due to this bucket at `now`.
    pub open spec fn due(self, average_rate: int, now: int) -> int {
        tokens_due(self.last_refill_time, average_rate, self.conversion_factor, now)
    }

    /// The bucket after the refill step. Without a whole token due nothing
    /// changes.
    pub open spec fn refill(self, burst_size: int, average_rate: int, now: int) -> Bucket {
        let tokens = self.due(average_rate, now);
        if tokens <= 0 {
            self
        } else {
            Bucket {
                conversion_factor: self.conversion_factor,
                consumed: level_after_refill(self.consumed, burst_size, tokens),
                last_refill_time: refill_time_after(
                    self.last_refill_time,
                    tokens,
                    average_rate,
                    self.conversion_factor,
                    now,
                ),
            }
        }
    }

    /// Whether a token can be taken: fewer than `burst_size` are in use.
    pub open spec fn has_room(self, burst_size: int) -> bool {
        room_at(self.consumed, burst_size)
    }

    /// The bucket after the consume step: one more token in use where there
    /// was room, unchanged where there was none.
    pub open spec fn consume(self, burst_size: int) -> Bucket {
        if self.has_room(burst_size) {
            Bucket { consumed: self.consumed + 1, ..self }
        } else {
            self
        }
    }

    /// Whether `acquire` lets the caller through: always where nothing is
    /// limited, else where the refilled bucket has room.
    pub open spec fn grants(self, burst_size: int, average_rate: int, now: int) -> bool {
        limiting(burst_size, average_rate) ==> self.refill(burst_size, average_rate, now).has_room(
            burst_size,
        )
    }

    /// The bucket after `acquire`: refilled and then consumed from, or
    /// untouched where nothing is limited.
    pub open spec fn acquire(self, burst_size: int, average_rate: int, now: int) -> Bucket {
        if limiting(burst_size, average_rate) {
            self.refill(burst_size, average_rate, now).consume(burst_size)
        } else {
            self
        }
    }

    /// The bucket after the calls of `calls`, made in order.
    pub open spec fn after(self, calls: Seq<Call>) -> Bucket
        decreases calls.len(),
    {
        if calls.len() == 0 {
            self
        } else {
            let last = calls.last();
            self.after(calls.drop_last()).acquire(last.burst_size, last.average_rate, last.now)
        }
    }

    /// The bucket after `reset`: nothing in use and never refilled.
    pub open spec fn cleared(self) -> Bucket {
        Bucket { conversion_factor: self.conversion_factor, consumed: 0, last_refill_time: 0 }
    }
}

/// A refill that is due: the whole tokens to return, and the time up to which
/// the bucket is refilled once they are returned.
#[derive(Clone, Copy, Debug)]
pub struct Refill {
    pub tokens: i128,
    pub until: i64,
}

/// The sign of a product is that of its factors, and a sign can be moved
/// out of either factor.
pub proof fn lemma_product_sign(a: int, b: int)
    ensures
        (a * b > 0) == ((a > 0 && b > 0) || (a < 0 && b < 0)),
        (a * b < 0) == ((a > 0 && b < 0) || (a < 0 && b > 0)),
        (-a) * b == -(a * b),
        a * (-b) == -(a * b),
{
    assert((a * b > 0) == ((a > 0 && b > 0) || (a < 0 && b < 0))) by (nonlinear_arith);
    assert((a * b < 0) == ((a > 0 && b < 0) || (a < 0 && b > 0))) by (nonlinear_arith);
    assert((-a) * b == -(a * b)) by (nonlinear_arith);
    assert(a * (-b) == -(a * b)) by (nonlinear_arith);
}

/// Dividing and multiplying back by first `c` and then `r` never leaves more
/// than there was: the time that whole tokens stand for is within the time
/// that has passed.
pub proof fn lemma_whole_tokens_within_span(span: int, r: int, c: int)
    requires
        0 <= span,
        0 < r,
        0 < c,
    ensures
        0 <= (span * r) / c,
        ((span * r) / c) * c <= span * r,
        0 <= (((span * r) / c) * c) / r <= span,
{
    let scaled = span * r;
    let tokens = scaled / c;
    assert(0 <= scaled) by (nonlinear_arith)
        requires
            0 <= span,
            0 < r,
            scaled == span * r,
    ;
    assert(0 <= tokens && tokens * c <= scaled) by (nonlinear_arith)
        requires
            0 <= scaled,
            0 < c,
            tokens == scaled / c,
    ;
    let back = tokens * c;
    assert(0 <= back) by (nonlinear_arith)
        requires
            0 <= tokens,
            0 < c,
            back == tokens * c,
    ;
    assert(0 <= back / r <= span) by (nonlinear_arith)
        requires
            0 <= back <= span * r,
            0 < r,
            0 <= span,
    ;
}

/// Works out the refill that is due at `now` to a bucket last refilled at
/// `last_refill_time`: `None` while no whole token is due, else the tokens and
/// the new refill time. The products are taken in 128 bits, so every pair of
/// times and every positive rate is served.
pub fn due_refill(last_refill_time: i64, average_rate: i64, conversion_factor: i32, now: i64) -> (due:
    Option<Refill>)
    requires
        average_rate > 0,
        conversion_factor != 0,
    ensures
        match due {
            Some(refill) => {
                &&& refill.tokens > 0
                &&& refill.tokens == tokens_due(
                    last_refill_time as int,
                    average_rate as int,
                    conversion_factor as int,
                    now as int,
                )
                &&& refill.until == refill_time_after(
                    last_refill_time as int,
                    refill.tokens as int,
                    average_rate as int,
                    conversion_factor as int,
                    now as int,
                )
            },
            None => tokens_due(
                last_refill_time as int,
                average_rate as int,
                conversion_factor as int,
                now as int,
            ) <= 0,
        },
{
    let elapsed: i128 = now as i128 - last_refill_time as i128;
    proof {
        lemma_product_sign(elapsed as int, average_rate as int);
    }
    if elapsed == 0 || (elapsed < 0) != (conversion_factor < 0) {
        return None;
    }
    let span: u128 = if elapsed < 0 {
        (-elapsed) as u128
    } else {
        elapsed as u128
    };
    let per: u128 = if conversion_factor < 0 {
        (-(conversion_factor as i64)) as u128
    } else {
        conversion_factor as u128
    };
    let rate: u128 = average_rate as u128;
    proof {
        lemma_whole_tokens_within_span(span as int, rate as int, per as int);
        assert(span * rate < 0x8000_0000_0000_0000_0000_0000_0000_0000) by (nonlinear_arith)
            requires
                0 <= span < 0x1_0000_0000_0000_0000,
                0 < rate < 0x8000_0000_0000_0000,
        ;
    }
    let tokens: u128 = (span * rate) / per;
    if tokens == 0 {
        return None;
    }
    proof {
        lemma_product_sign(tokens as int, conversion_factor as int);
    }
    let until: i64 = if last_refill_time == 0 {
        now
    } else {
        let step: u128 = (tokens * per) / rate;
        if elapsed < 0 {
            (last_refill_time as i128 - step as i128) as i64
        } else {
            (last_refill_time as i128 + step as i128) as i64
        }
    };
    Some(Refill { tokens: tokens as i128, until })
}

/// Returns `tokens` to a bucket with `consumed` tokens in use and gives the
/// number in use afterwards.
pub fn return_tokens(consumed: i32, burst_size: i32, tokens: i128) -> (level: i32)
    requires
        tokens > 0,
    ensures
        level == level_after_refill(consumed as int, burst_size as int, tokens as int),
{
    let capped: i32 = if consumed < burst_size {
        consumed
    } else {
        burst_size
    };
    if (capped as i128) < tokens {
        0
    } else {
        (capped as i128 - tokens) as i32
    }
}

/// Takes one token from a bucket with `consumed` tokens in use: the number in
/// use afterwards, or `None` where `burst_size` are in use already.
pub fn take_token(consumed: i32, burst_size: i32) -> (level: Option<i32>)
    ensures
        level == if room_at(consumed as int, burst_size as int) {
            Some((consumed + 1) as i32)
        } else {
            None
        },
{
    if consumed >= burst_size {
        None
    } else {
        Some(consumed + 1)
    }
}

} // verus!
