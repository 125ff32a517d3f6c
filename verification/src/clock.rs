//! Points in time.

use chrono::{DateTime, Utc};
use vstd::prelude::*;

verus! {

/// A point in time: seconds since the start of 1970 in UTC, and the nanoseconds after them.
#[derive(Debug, Clone, Copy, PartialEq, Eq, Structural)]
pub struct Timestamp {
    pub seconds: i64,
    pub nanos: u32,
}

/// The seconds and nanoseconds of the point in time that a text in the notation of RFC 3339
/// stands for, where it stands for one.
pub uninterp spec fn rfc3339_instant(text: Seq<char>) -> Option<(i64, u32)>;

/// Reads a point in time.
///
/// Calls `DateTime::parse_from_rfc3339` and takes the result to UTC. What the notation allows is
/// left to that function: only that the text alone decides is claimed.
#[verifier::external_body]
pub(crate) fn parse_from_rfc3339(text: &str) -> (instant: Option<(i64, u32)>)
    ensures
        instant == rfc3339_instant(text@),
{
    let time = DateTime::parse_from_rfc3339(text).ok()?.with_timezone(&Utc);
    Some((time.timestamp(), time.timestamp_subsec_nanos()))
}

/// Reads the clock.
///
/// Calls `Utc::now`, which counts from the start of 1970. Which moment it is depends on the
/// machine; only that it is none before 1970 and that a fraction of a second comes with it is
/// claimed. Where the clock itself stands before 1970, `Utc::now` does not return.
#[verifier::external_body]
pub(crate) fn utc_now() -> (now: (i64, u32))
    ensures
        now.0 >= 0,
        now.1 < 1_000_000_000,
{
    let time = Utc::now();
    (time.timestamp(), time.timestamp_subsec_nanos())
}

/// What is claimed of a time that was to be read from a text, where `read` is what the text stands
/// for: it is that point in time. Where there is none, and the time comes from the clock, only what
/// holds whatever the clock says is claimed: that it is no time before 1970, with a fraction of a
/// second.
pub open spec fn is_read_or_since_1970(time: Timestamp, read: Option<(i64, u32)>) -> bool {
    match read {
        Some((seconds, nanos)) => time == Timestamp { seconds, nanos },
        None => time.seconds >= 0 && time.nanos < 1_000_000_000,
    }
}

/// The point in time that was read, or `present` where none was.
pub fn read_or(read: Option<(i64, u32)>, present: (i64, u32)) -> (time: Timestamp)
    ensures
        time == (match read {
            Some((seconds, nanos)) => Timestamp { seconds, nanos },
            None => Timestamp { seconds: present.0, nanos: present.1 },
        }),
{
    let (seconds, nanos) = match read {
        Some(instant) => instant,
        None => present,
    };
    Timestamp { seconds, nanos }
}

/// The point in time that `text` stands for, or the present where it stands for none. The clock is
/// read only where it is needed; which time it gives is not claimed.
pub fn parse_or_now(text: &str) -> (time: Timestamp)
    ensures
        is_read_or_since_1970(time, rfc3339_instant(text@)),
        rfc3339_instant(text@) matches Some(instant) ==> {
            &&& time.seconds == instant.0
            &&& time.nanos == instant.1
        },
{
    let read = parse_from_rfc3339(text);
    let present = match read {
        Some(instant) => instant,
        None => utc_now(),
    };
    read_or(read, present)
}

} // verus!
