//! The wall clock, as far as the game needs it.

use std::time::{Duration, SystemTime, SystemTimeError};
use vstd::prelude::*;

verus! {

/// A point in time as the system clock reports it. Nothing is known of what
/// it holds.
#[verifier::external_type_specification]
#[verifier::external_body]
pub struct ExSystemTime(std::time::SystemTime);

/// The error of a clock that has gone backwards.
#[verifier::external_type_specification]
#[verifier::external_body]
pub struct ExSystemTimeError(std::time::SystemTimeError);

/// `SystemTime::now` reads the system clock. Nothing is promised of the
/// value.
pub assume_specification[ std::time::SystemTime::now ]() -> (now: SystemTime)
;

/// `SystemTime::elapsed` gives the time that has passed since `start`, or an
/// error when the clock now reads earlier than `start`. Nothing is promised
/// of the value.
pub assume_specification[ std::time::SystemTime::elapsed ](start: &SystemTime) -> (passed:
    Result<Duration, SystemTimeError>)
;

/// The whole milliseconds that a duration holds, as `Duration::as_millis`
/// counts them. A duration is a plain length of time, so the count depends
/// on the duration alone.
pub uninterp spec fn millis_of(duration: Duration) -> u128;

/// `Duration::as_millis` gives the whole milliseconds of a duration. Assumed
/// of the standard library, not proved: the result is a function of the
/// duration alone, here called [`millis_of`]. What the number is for a given
/// duration is not stated.
pub assume_specification[ std::time::Duration::as_millis ](duration: &Duration) -> (ms: u128)
    ensures
        ms == millis_of(*duration),
;

/// Reads how many whole milliseconds have passed since `start`; `None` when
/// the clock cannot tell.
pub(crate) fn elapsed_millis(start: &SystemTime) -> (reading: Option<u128>) {
    reading_of(start.elapsed())
}

/// The reading that an answer of the clock stands for: the whole
/// milliseconds of the time that has passed, or none when the clock answered
/// with an error.
pub open spec fn reading(passed: Result<Duration, SystemTimeError>) -> Option<u128> {
    match passed {
        Ok(time) => Some(millis_of(time)),
        Err(_) => None,
    }
}

/// Turns what the clock answered into a reading: the whole milliseconds of
/// the time that has passed, or `None` when the clock answered with an
/// error.
pub fn reading_of(passed: Result<Duration, SystemTimeError>) -> (read: Option<u128>)
    ensures
        read == reading(passed),
        read is Some <==> passed is Ok,
{
    match passed {
        Ok(time) => Some(time.as_millis()),
        Err(_) => None,
    }
}

} // verus!
