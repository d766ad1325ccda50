//! The wall clock as Unix milliseconds.
use vstd::prelude::*;

use std::time::{Duration, SystemTime, UNIX_EPOCH};

verus! {

#[verifier::external_type_specification]
#[verifier::external_body]
pub struct ExSystemTime(SystemTime);

/// Why the clock could not be read as Unix milliseconds.
#[derive(Clone, Copy, Debug, PartialEq, Eq, Structural)]
pub enum ClockError {
    BeforeUnixEpoch,
    TimestampOverflow,
}

/// The text that reports a clock error.
pub open spec fn clock_error_text(e: ClockError) -> Seq<char> {
    match e {
        ClockError::BeforeUnixEpoch => "system clock is before the Unix epoch"@,
        ClockError::TimestampOverflow => "current Unix timestamp does not fit in u64 milliseconds"@,
    }
}

impl ClockError {
    pub fn message(&self) -> (r: &'static str)
        ensures
            r@ == clock_error_text(*self),
    {
        match self {
            ClockError::BeforeUnixEpoch => "system clock is before the Unix epoch",
            ClockError::TimestampOverflow => "current Unix timestamp does not fit in u64 milliseconds",
        }
    }
}

/// `SystemTime::now`: the current time of the system clock. It depends on the moment
/// of the call, so nothing is stated of it.
#[verifier::external_body]
fn system_now() -> (r: SystemTime) {
    SystemTime::now()
}

/// `SystemTime::duration_since(UNIX_EPOCH)`: the time elapsed since the Unix epoch, or
/// nothing where the time lies before it. Which of the two comes back depends on the
/// time given, which is opaque here, so nothing is stated of it.
#[verifier::external_body]
fn since_unix_epoch(time: &SystemTime) -> (r: Option<Duration>) {
    time.duration_since(UNIX_EPOCH).ok()
}

/// `Duration::as_millis`: the whole milliseconds of a duration, which is opaque here.
#[verifier::external_body]
fn whole_millis(duration: &Duration) -> (r: u128) {
    duration.as_millis()
}

/// A count of milliseconds since the Unix epoch, where it fits in a `u64`.
pub fn millis_to_u64(millis: u128) -> (r: Result<u64, ClockError>)
    ensures
        millis <= u64::MAX ==> r == Ok::<u64, ClockError>(millis as u64),
        millis > u64::MAX ==> r == Err::<u64, ClockError>(ClockError::TimestampOverflow),
{
    if millis > 0xffff_ffff_ffff_ffff {
        Err(ClockError::TimestampOverflow)
    } else {
        Ok(millis as u64)
    }
}

/// The current time as Unix milliseconds: an error where the clock reads a time before
/// the epoch or too far after it. The time read is not stated.
pub fn unix_time_millis() -> (r: Result<u64, ClockError>) {
    let now = system_now();
    let elapsed = match since_unix_epoch(&now) {
        Some(elapsed) => Some(whole_millis(&elapsed)),
        None => None,
    };
    epoch_millis(elapsed)
}

/// The Unix time in milliseconds from the whole milliseconds since the epoch, or nothing
/// where the clock reads a time before it.
pub fn epoch_millis(elapsed: Option<u128>) -> (r: Result<u64, ClockError>)
    ensures
        r == match elapsed {
            None => Err::<u64, ClockError>(ClockError::BeforeUnixEpoch),
            Some(millis) => if millis <= u64::MAX {
                Ok::<u64, ClockError>(millis as u64)
            } else {
                Err::<u64, ClockError>(ClockError::TimestampOverflow)
            },
        },
{
    match elapsed {
        Some(millis) => millis_to_u64(millis),
        None => Err(ClockError::BeforeUnixEpoch),
    }
}

} // verus!
