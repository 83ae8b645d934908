//! The system clock, read as time elapsed since the Unix epoch.

use crate::std_msgs::Time;
use std::time::{Duration, SystemTime, SystemTimeError};
use vstd::prelude::*;

verus! {

/// `std::time::SystemTime`, a reading of the system clock, carried as an
/// opaque value.
#[verifier::external_type_specification]
#[verifier::external_body]
pub struct ExSystemTime(SystemTime);

/// `std::time::SystemTimeError`, what `SystemTime::duration_since` returns
/// when the second reading is later than the first.
#[verifier::external_type_specification]
#[verifier::external_body]
pub struct ExSystemTimeError(SystemTimeError);

/// `SystemTime::now` reads the clock. Nothing is claimed of the reading.
pub assume_specification[ SystemTime::now ]() -> (now: SystemTime);

/// `SystemTime::duration_since` measures the time from `earlier` to `this`
/// and fails when `earlier` is the later of the two. Which of the two
/// happens, and the length measured, are left open.
pub assume_specification[ SystemTime::duration_since ](
    this: &SystemTime,
    earlier: SystemTime,
) -> (elapsed: Result<Duration, SystemTimeError>);

/// `Duration::as_secs` is the number of whole seconds in the duration.
/// Nothing is claimed of it.
pub assume_specification[ Duration::as_secs ](duration: &Duration) -> (secs: u64);

/// `Duration::subsec_nanos` is the part of the duration beyond its whole
/// seconds, in nanoseconds: documented to be less than one billion.
pub assume_specification[ Duration::subsec_nanos ](duration: &Duration) -> (nanos: u32)
    ensures
        nanos < 1_000_000_000,
;

/// The constant `std::time::UNIX_EPOCH`: 1970-01-01 00:00:00 UTC.
#[verifier::external_body]
fn unix_epoch() -> SystemTime {
    std::time::UNIX_EPOCH
}

/// The current wall-clock time as seconds and nanoseconds since the Unix
/// epoch, or `None` when the clock reports a time before the epoch.
pub fn now_since_epoch() -> (reading: Option<Time>)
    ensures
        reading matches Some(stamp) ==> stamp.is_normalized(),
{
    let now = SystemTime::now();
    match now.duration_since(unix_epoch()) {
        Ok(elapsed) => Some(Time { sec: elapsed.as_secs(), nanosec: elapsed.subsec_nanos() }),
        Err(_) => None,
    }
}

} // verus!
