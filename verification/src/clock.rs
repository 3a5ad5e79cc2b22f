//! The wall clock, in whole seconds since the Unix epoch.

use std::time::{Duration, SystemTime, SystemTimeError};
use vstd::prelude::*;

verus! {

#[verifier::external_type_specification]
#[verifier::external_body]
pub struct ExSystemTime(SystemTime);

#[verifier::external_type_specification]
#[verifier::external_body]
pub struct ExSystemTimeError(SystemTimeError);

/// `SystemTime::now`: the current reading of the system clock. Nothing is
/// claimed of it.
pub assume_specification[ SystemTime::now ]() -> (now: SystemTime);

/// `SystemTime::duration_since`, with the Unix epoch as the earlier instant:
/// the time elapsed since the epoch, or an error where `instant` lies before
/// it. Nothing is claimed of the outcome.
#[verifier::external_body]
fn since_epoch(instant: &SystemTime) -> (elapsed: Result<Duration, SystemTimeError>) {
    instant.duration_since(SystemTime::UNIX_EPOCH)
}

/// `Duration::as_secs`: the whole seconds of a duration. Nothing is claimed
/// of it.
pub assume_specification[ Duration::as_secs ](d: &Duration) -> (secs: u64);

/// Seconds since the Unix epoch by the system clock, or `None` where the
/// clock stands before the epoch.
pub fn unix_seconds() -> (secs: Option<u64>) {
    let now = SystemTime::now();
    match since_epoch(&now) {
        Ok(elapsed) => Some(elapsed.as_secs()),
        Err(_) => None,
    }
}

} // verus!
