//! The newest commits of a repository, each with its author's name and
//! e-mail address apart and with a time that a calendar can show.

use vstd::prelude::*;
use vstd::string::*;
use crate::clock::now_seconds;

verus! {

/// A commit of the history. The time is in seconds since the epoch.
#[derive(Debug, Clone, PartialEq, Eq)]
pub struct CommitInfo {
    pub id: String,
    pub author: String,
    pub email: String,
    pub message: String,
    pub time: i64,
}

/// A commit as the walk of the history read it; what is no valid text is
/// missing.
#[derive(Debug, Clone, PartialEq, Eq)]
pub struct CommitRecord {
    pub id: String,
    pub author: Option<String>,
    pub email: Option<String>,
    pub message: Option<String>,
    /// The commit time, in seconds since the epoch.
    pub seconds: i64,
}

/// The first second that the calendar of `chrono` has a date for: the
/// beginning of the year -262143.
pub const FIRST_CALENDAR_SECOND: i64 = -8_334_601_228_800;

/// The last second that the calendar of `chrono` has a date for: the end of
/// the year 262142.
pub const LAST_CALENDAR_SECOND: i64 = 8_210_266_876_799;

/// Whether the calendar has a date for this number of seconds since the
/// epoch.
pub open spec fn is_calendar_time(seconds: i64) -> bool {
    FIRST_CALENDAR_SECOND <= seconds <= LAST_CALENDAR_SECOND
}

/// Calls `chrono::DateTime::<Utc>::from_timestamp` with the seconds and no
/// nanoseconds, and takes the timestamp of the date it returns. The call
/// returns a date exactly where the seconds fall on a day of its calendar,
/// which reaches from the first day of the year -262143 to the last day of
/// the year 262142; the timestamp of that date is the number of seconds that
/// it was made from.
#[verifier::external_body]
fn calendar_time(seconds: i64) -> (r: Option<i64>)
    ensures
        r is Some <==> is_calendar_time(seconds),
        r matches Some(t) ==> t == seconds,
{
    chrono::DateTime::<chrono::Utc>::from_timestamp(seconds, 0).map(|date| date.timestamp())
}

/// The text of a field, or `fallback` where it is missing.
pub open spec fn text_or(field: Option<String>, fallback: Seq<char>) -> Seq<char> {
    match field {
        Some(text) => text@,
        None => fallback,
    }
}

/// Whether `info` shows `record`: the same identifier; author, address and
/// message as recorded, `Unknown`, `Unknown` and `No message` where they are
/// missing; and the recorded time where the calendar has a date for it, else
/// a time that the clock gave.
pub open spec fn shows(record: CommitRecord, info: CommitInfo) -> bool {
    &&& info.id@ == record.id@
    &&& info.author@ == text_or(record.author, "Unknown"@)
    &&& info.email@ == text_or(record.email, "Unknown"@)
    &&& info.message@ == text_or(record.message, "No message"@)
    &&& is_calendar_time(record.seconds) ==> info.time == record.seconds
    &&& !is_calendar_time(record.seconds) ==> info.time >= 0
}

/// The text of a field, or `fallback` where it is missing.
fn text_or_fallback(field: &Option<String>, fallback: &str) -> (text: String)
    ensures
        text@ == text_or(*field, fallback@),
{
    match field {
        Some(text) => text.clone(),
        None => String::from_str(fallback),
    }
}

/// The time of a commit: the recorded one where the calendar has a date for
/// it, else `now`.
pub fn commit_time(on_calendar: Option<i64>, now: i64) -> (time: i64)
    ensures
        time == (match on_calendar {
            Some(t) => t,
            None => now,
        }),
{
    match on_calendar {
        Some(t) => t,
        None => now,
    }
}

/// The first `limit` commits of a walk, in the order of the walk. A commit
/// whose time the calendar has no date for gets the time of the call.
pub fn get_commit_history(walk: &Vec<CommitRecord>, limit: usize) -> (history: Vec<CommitInfo>)
    ensures
        history.len() == (if limit < walk.len() {
            limit
        } else {
            walk.len()
        }),
        forall|i: int| 0 <= i < history.len() ==> shows(walk[i], #[trigger] history[i]),
{
    let mut history: Vec<CommitInfo> = Vec::new();
    let mut i: usize = 0;
    while i < walk.len() && i < limit
        invariant
            i <= walk.len(),
            i <= limit,
            history.len() == i,
            forall|k: int| 0 <= k < i ==> shows(walk[k], #[trigger] history[k]),
        decreases walk.len() - i,
    {
        let record = &walk[i];
        let time = commit_time(calendar_time(record.seconds), now_seconds());
        history.push(
            CommitInfo {
                id: record.id.clone(),
                author: text_or_fallback(&record.author, "Unknown"),
                email: text_or_fallback(&record.email, "Unknown"),
                message: text_or_fallback(&record.message, "No message"),
                time,
            },
        );
        i += 1;
    }
    history
}

} // verus!
