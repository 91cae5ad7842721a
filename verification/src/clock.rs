//! The clock reading of an identifier.

use std::time::{Duration, SystemTime, SystemTimeError, UNIX_EPOCH};
use vstd::prelude::*;

verus! {

/// A reading of the system clock, carried as an opaque value.
#[verifier::external_type_specification]
#[verifier::external_body]
pub struct ExSystemTime(SystemTime);

/// What `SystemTime::duration_since` reports when the other instant is
/// the later one, carried as an opaque value.
#[verifier::external_type_specification]
#[verifier::external_body]
pub struct ExSystemTimeError(SystemTimeError);

/// `SystemTime::now` reads the system clock. Nothing is claimed of the
/// reading.
pub assume_specification[ SystemTime::now ]() -> SystemTime;

/// `SystemTime::duration_since` measures the time from `earlier` to
/// `later`, and fails when `earlier` is the later one. Nothing is claimed
/// of the outcome.
pub assume_specification[ SystemTime::duration_since ](
    later: &SystemTime,
    earlier: SystemTime,
) -> Result<Duration, SystemTimeError>;

/// The whole milliseconds of a duration, as `Duration::as_millis` of the
/// standard library gives them.
pub uninterp spec fn whole_millis(elapsed: Duration) -> u128;

/// The constant `UNIX_EPOCH` of the standard library: the first instant of
/// the year 1970, UTC.
#[verifier::external_body]
fn unix_epoch() -> SystemTime {
    UNIX_EPOCH
}

/// The whole milliseconds that have passed since the Unix epoch, read from
/// the system clock; `None` where the clock reads an instant before the
/// epoch.
pub fn time() -> Option<u128> {
    let now = SystemTime::now();
    to_millis(now.duration_since(unix_epoch()))
}

/// `Duration::as_millis` gives the whole milliseconds of a duration. The
/// number depends on the duration alone; which number it is, is not
/// claimed.
pub assume_specification[ Duration::as_millis ](elapsed: &Duration) -> (millis: u128)
    ensures
        millis == whole_millis(*elapsed),
;

/// The clock reading that the outcome of a measurement since the epoch
/// stands for: the whole milliseconds of the time that has passed, and
/// none where the measurement failed.
pub open spec fn millis_of(outcome: Result<Duration, SystemTimeError>) -> Option<u128> {
    match outcome {
        Ok(elapsed) => Some(whole_millis(elapsed)),
        Err(_) => None,
    }
}

/// Turns the outcome of a measurement since the epoch into a clock reading.
pub fn to_millis(outcome: Result<Duration, SystemTimeError>) -> (reading: Option<u128>)
    ensures
        reading == millis_of(outcome),
{
    match outcome {
        Ok(elapsed) => Some(elapsed.as_millis()),
        Err(_) => None,
    }
}

} // verus!
