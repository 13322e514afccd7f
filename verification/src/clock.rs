//! The wall clock, from which every signed request takes a fresh timestamp.

use std::time::Duration;
use std::time::SystemTime;
use std::time::SystemTimeError;

use vstd::prelude::*;

verus! {

#[verifier::external_type_specification]
#[verifier::external_body]
pub struct ExSystemTime(SystemTime);

#[verifier::external_type_specification]
#[verifier::external_body]
pub struct ExSystemTimeError(SystemTimeError);

/// `SystemTime::now`: the time of the system clock. Nothing is known of it.
#[verifier::external_body]
fn system_now() -> (now: SystemTime) {
    SystemTime::now()
}

/// `SystemTime::duration_since` with `UNIX_EPOCH`: how far `time` lies after
/// the epoch, or an error where it lies before it.
#[verifier::external_body]
fn since_unix_epoch(time: SystemTime) -> (elapsed: Result<Duration, SystemTimeError>) {
    time.duration_since(SystemTime::UNIX_EPOCH)
}

/// `Duration::as_millis`: a duration in whole milliseconds.
#[verifier::external_body]
fn whole_millis(duration: Duration) -> (millis: u128) {
    duration.as_millis()
}

/// Milliseconds since the Unix epoch by the system clock. A clock that stands
/// before the epoch counts as standing at it.
pub(crate) fn unix_millis() -> u128 {
    match since_unix_epoch(system_now()) {
        Ok(elapsed) => whole_millis(elapsed),
        Err(_) => 0,
    }
}

} // verus!
