//! The clock that limiters read when the caller names no time.

use std::time::Duration;
use std::time::SystemTime;
use std::time::SystemTimeError;
use vstd::prelude::*;

verus! {

/// The error of a system time that lies before the time it is measured from;
/// nothing of it is read here.
#[verifier::external_type_specification]
#[verifier::external_body]
pub struct ExSystemTimeError(SystemTimeError);

/// `SystemTime::elapsed` on `SystemTime::UNIX_EPOCH`: the time from the Unix
/// epoch to the present reading of the system clock, or an error where the
/// clock reads a time before the epoch. Nothing is claimed of the reading.
#[verifier::external_body]
fn since_epoch() -> Result<Duration, SystemTimeError> {
    SystemTime::UNIX_EPOCH.elapsed()
}

/// `Duration::as_millis`: the whole milliseconds in a duration. A duration is
/// opaque here, so nothing more is claimed than that a number comes back.
pub assume_specification[ Duration::as_millis ](duration: &Duration) -> u128;

/// The system clock in whole milliseconds since the Unix epoch; 0 where the
/// clock reads a time before the epoch.
pub fn now_millis() -> u128 {
    match since_epoch() {
        Ok(passed) => passed.as_millis(),
        Err(_) => 0,
    }
}

/// The time that a bucket keeps for a clock reading of `millis`: the reading
/// itself while it fits 63 bits, and beyond that its low 64 bits read as a
/// signed number.
pub open spec fn bucket_time_of(millis: u128) -> int {
    let low = millis % 0x1_0000_0000_0000_0000;
    if low <= i64::MAX {
        low as int
    } else {
        low - 0x1_0000_0000_0000_0000
    }
}

/// Turns a clock reading into the signed 64-bit time that a bucket keeps.
pub fn bucket_time(millis: u128) -> (time: i64)
    ensures
        time == bucket_time_of(millis),
        millis <= i64::MAX ==> time == millis,
{
    let low: u128 = millis % 0x1_0000_0000_0000_0000;
    if low <= 0x7fff_ffff_ffff_ffff {
        low as i64
    } else {
        (low - 0x8000_0000_0000_0000) as i64 + i64::MIN
    }
}

/// The present reading of the system clock as the time that a bucket keeps.
pub(crate) fn now_as_bucket_time() -> i64 {
    bucket_time(now_millis())
}

} // verus!
