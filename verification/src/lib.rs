//! Token-bucket rate limiting with lazy refill.
//!
//! A bucket counts the tokens that are in use out of a burst allowance and
//! remembers the time up to which it has been refilled. Nothing runs in the
//! background: every call to `acquire` first returns the tokens that the time
//! passed since the last refill is worth and then tries to take one.
//!
//! [`RateLimiter`] is the bucket for a single owner, [`AtomicRateLimiter`] the
//! one that many callers share. [`QpsLimiter`] and [`AtomicQpsLimiter`] fix the
//! burst size and a rate per second on top of them. The arithmetic that both
//! buckets share, and its mathematical model, is in [`bucket`]; what follows
//! from it for whole runs of calls is proved in [`laws`].

pub mod atomic;
pub mod bucket;
pub mod clock;
pub mod laws;
pub mod limiter;
pub mod unit;

pub use crate::atomic::AtomicQpsLimiter;
pub use crate::atomic::AtomicRateLimiter;
pub use crate::clock::now_millis;
pub use crate::limiter::QpsLimiter;
pub use crate::limiter::RateLimiter;
pub use crate::unit::RateUnit;
