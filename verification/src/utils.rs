//! The clock, and the name of a job that was given none.
use std::time::{Duration, SystemTime, SystemTimeError};
use vstd::prelude::*;
use vstd::string::StringExecFns;

use crate::text::{digits_of, unsigned_text};

verus! {

/// What the name of a job begins with where the caller gave none.
pub const DEFAULT_JOB_NAME_PREFIX: &'static str = "ffs-job-";

/// `std::time::SystemTime`, a reading of the clock: carried through, never looked into.
#[verifier::external_type_specification]
#[verifier::external_body]
pub struct ExSystemTime(SystemTime);

/// `std::time::SystemTimeError`, the error of `duration_since`: never looked into.
#[verifier::external_type_specification]
#[verifier::external_body]
pub struct ExSystemTimeError(SystemTimeError);

/// `SystemTime::now` reads the clock: nothing is known of what it gives.
pub assume_specification[ SystemTime::now ]() -> (now: SystemTime)
;

/// `SystemTime::duration_since` gives the time from `earlier` to `time`, or
/// an error where `earlier` is the later one. Both are opaque here.
pub assume_specification[ SystemTime::duration_since ](time: &SystemTime, earlier: SystemTime) -> (r:
    Result<Duration, SystemTimeError>)
;

/// The whole seconds that a duration holds, as `Duration::as_secs` gives them.
pub uninterp spec fn whole_seconds(duration: Duration) -> u64;

/// `Duration::as_secs` gives the whole seconds of the duration, a number
/// that the duration alone decides: `whole_seconds` is the name of it.
pub assume_specification[ Duration::as_secs ](duration: &Duration) -> (seconds: u64)
    ensures
        seconds == whole_seconds(*duration),
;

/// Hands out the constant `std::time::UNIX_EPOCH`, the start of 1970.
/// Nothing is claimed of it.
#[verifier::external_body]
fn unix_epoch() -> (epoch: SystemTime) {
    std::time::UNIX_EPOCH
}

/// The whole seconds that have passed since the start of 1970, by the
/// system's clock; `None` where the clock stands before that. The clock
/// alone decides which: `seconds_of` says what each of its readings gives.
pub fn timestamp() -> (seconds: Option<u64>) {
    seconds_of(SystemTime::now().duration_since(unix_epoch()))
}

/// What a comparison of the clock with the start of 1970 is worth: the whole
/// seconds of the time that has passed, and `None` where the comparison
/// failed because the clock stands before that start.
pub fn seconds_of(elapsed: Result<Duration, SystemTimeError>) -> (seconds: Option<u64>)
    ensures
        match elapsed {
            Ok(passed) => seconds == Some(whole_seconds(passed)),
            Err(_) => seconds is None,
        },
{
    match elapsed {
        Ok(passed) => Some(passed.as_secs()),
        Err(_) => None,
    }
}

/// The name of a job that was started without one, at `seconds`.
pub fn default_job_name(seconds: u64) -> (name: String)
    ensures
        name@ == DEFAULT_JOB_NAME_PREFIX@ + digits_of(seconds as nat),
{
    String::from_str(DEFAULT_JOB_NAME_PREFIX).concat(unsigned_text(seconds).as_str())
}

} // verus!
