//! The wall clock, in milliseconds since the Unix epoch.

use vstd::prelude::*;
use std::time::{Duration, SystemTime, SystemTimeError};

verus! {

#[verifier::external_type_specification]
#[verifier::external_body]
pub struct ExSystemTime(SystemTime);

#[verifier::external_type_specification]
#[verifier::external_body]
pub struct ExSystemTimeError(SystemTimeError);

/// `SystemTime::now`: what the clock reads; nothing is promised of it.
#[verifier::external_body]
fn clock_now() -> SystemTime {
    SystemTime::now()
}

/// `SystemTime::duration_since(UNIX_EPOCH)`: the time since the epoch, or an
/// error where the clock reads earlier; nothing is promised of which.
#[verifier::external_body]
fn since_epoch(t: &SystemTime) -> Result<Duration, SystemTimeError> {
    t.duration_since(std::time::UNIX_EPOCH)
}

/// `Duration::as_millis`: the whole milliseconds of a duration; `Duration`
/// is opaque here, so nothing is stated of the number.
#[verifier::external_body]
fn whole_millis(d: &Duration) -> u128 {
    d.as_millis()
}

/// The milliseconds since the epoch where the clock read after it, or 0
/// where it read earlier.
pub fn millis_or_zero(outcome: Result<u128, ()>) -> (m: u128)
    ensures
        m == match outcome {
            Ok(ms) => ms,
            Err(_) => 0,
        },
{
    match outcome {
        Ok(ms) => ms,
        Err(_) => 0,
    }
}

/// Milliseconds since the Unix epoch by the system clock, or 0 where the
/// clock reads earlier than the epoch.
pub fn now_ms() -> u128 {
    let t = clock_now();
    let outcome = match since_epoch(&t) {
        Ok(d) => Ok(whole_millis(&d)),
        Err(_) => Err(()),
    };
    millis_or_zero(outcome)
}

} // verus!
