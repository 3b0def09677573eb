//! The time of day, as far as the library needs it.

use vstd::prelude::*;

verus! {

/// Calls `std::time::SystemTime::now` and measures the time it gives from
/// the epoch with `duration_since`: the whole seconds since the epoch, or
/// nothing where the clock stands before the epoch. Nothing is claimed of
/// the result: it is the time of the call, and two calls need not agree.
#[verifier::external_body]
fn since_epoch() -> (seconds: Option<u64>) {
    match std::time::SystemTime::now().duration_since(std::time::UNIX_EPOCH) {
        Ok(elapsed) => Some(elapsed.as_secs()),
        Err(_) => None,
    }
}

/// The seconds since the epoch at the time of the call. A clock that stands
/// before the epoch, or too far behind it to count, reads as the epoch.
pub fn now_seconds() -> (seconds: i64)
    ensures
        seconds >= 0,
{
    seconds_of_reading(since_epoch())
}

/// The seconds that a reading of the clock stands for: the reading itself,
/// and the epoch where the clock gave nothing or more than can be counted.
pub open spec fn reading_spec(reading: Option<u64>) -> i64 {
    match reading {
        Some(elapsed) => if elapsed <= i64::MAX {
            elapsed as i64
        } else {
            0
        },
        None => 0,
    }
}

/// The seconds that a reading of the clock stands for.
pub fn seconds_of_reading(reading: Option<u64>) -> (seconds: i64)
    ensures
        seconds == reading_spec(reading),
        seconds >= 0,
{
    match reading {
        Some(elapsed) => if elapsed <= 0x7fff_ffff_ffff_ffff {
            elapsed as i64
        } else {
            0
        },
        None => 0,
    }
}

/// The seconds since the epoch as a count: times before the epoch count as
/// the epoch.
pub open spec fn seconds_from_epoch(seconds: i64) -> u64 {
    if seconds < 0 {
        0
    } else {
        seconds as u64
    }
}

/// The seconds since the epoch as a count.
pub fn count_seconds(seconds: i64) -> (count: u64)
    ensures
        count == seconds_from_epoch(seconds),
{
    if seconds < 0 {
        0
    } else {
        seconds as u64
    }
}

} // verus!
