//! The wall clock, read in whole seconds since the Unix epoch.

use vstd::prelude::*;
use std::time::{Duration, SystemTime, SystemTimeError, UNIX_EPOCH};

verus! {

/// `std::time::SystemTime`, a point on the system clock.  Nothing of its
/// inside is known here.
#[verifier::external_type_specification]
#[verifier::external_body]
pub struct ExSystemTime(SystemTime);

/// `std::time::SystemTimeError`, what `duration_since` returns when the
/// earlier point is in fact the later one.
#[verifier::external_type_specification]
#[verifier::external_body]
pub struct ExSystemTimeError(SystemTimeError);

/// `SystemTime::now` reads the system clock.  Nothing is claimed of the
/// point it returns.
pub assume_specification[ SystemTime::now ]() -> (t: SystemTime);

/// `SystemTime::duration_since` measures from `earlier` to `t`.  Nothing is
/// claimed of what it returns.
pub assume_specification[ SystemTime::duration_since ](t: &SystemTime, earlier: SystemTime) -> (r:
    Result<Duration, SystemTimeError>);

/// `Duration::as_secs` gives the whole seconds of a duration.  Nothing is
/// claimed of the number.
pub assume_specification[ Duration::as_secs ](d: &Duration) -> (secs: u64);

/// `std::time::UNIX_EPOCH`, the point from which the seconds are counted.
#[verifier::external_body]
fn unix_epoch() -> SystemTime {
    UNIX_EPOCH
}

/// The current time in seconds since the Unix epoch, or `None` where the
/// system clock stands before the epoch.
pub fn unix_now() -> Option<u64> {
    let now = SystemTime::now();
    match now.duration_since(unix_epoch()) {
        Ok(elapsed) => Some(elapsed.as_secs()),
        Err(_) => None,
    }
}

} // verus!
