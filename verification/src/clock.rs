//! Wall-clock time in milliseconds, as the compositor's cadence needs it.

use std::time::{Duration, SystemTime, SystemTimeError};
use vstd::prelude::*;

verus! {

#[verifier::external_type_specification]
#[verifier::external_body]
pub struct ExSystemTime(SystemTime);

#[verifier::external_type_specification]
#[verifier::external_body]
pub struct ExSystemTimeError(SystemTimeError);

/// `SystemTime::now` reads the system clock. Nothing is claimed of the
/// reading.
pub assume_specification[ SystemTime::now ]() -> (now: SystemTime)
;

/// `SystemTime::duration_since` measures from `earlier` to `time`, and fails
/// where `earlier` is the later of the two. Nothing is claimed of the
/// outcome.
pub assume_specification[ SystemTime::duration_since ](
    time: &SystemTime,
    earlier: SystemTime,
) -> (elapsed: Result<Duration, SystemTimeError>)
;

/// `Duration::as_millis` gives the whole milliseconds of a duration. Nothing
/// is claimed of the number.
pub assume_specification[ Duration::as_millis ](duration: &Duration) -> (millis: u128)
;

/// The constant `std::time::UNIX_EPOCH`.
#[verifier::external_body]
fn unix_epoch() -> SystemTime {
    std::time::UNIX_EPOCH
}

/// Milliseconds since the Unix epoch by the system clock; zero where the
/// clock stands before the epoch.
pub fn now_millis() -> u128 {
    match SystemTime::now().duration_since(unix_epoch()) {
        Ok(elapsed) => elapsed.as_millis(),
        Err(_) => 0,
    }
}

} // verus!
