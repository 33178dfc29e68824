//! Texts for the time of a commit.

use vstd::prelude::*;
use chrono::{TimeZone, Utc};
use crate::text::{push_signed_decimal, signed_decimal};

verus! {

/// The time of a commit: seconds since the epoch, and the offset of the
/// committer's time zone from UTC in minutes.
#[derive(Clone, Copy, Debug, PartialEq, Eq, Structural)]
pub struct CommitTime {
    pub seconds: i64,
    pub offset_minutes: i32,
}

/// The seconds since the epoch on a clock set to the committer's time zone.
pub open spec fn local_seconds(time: CommitTime) -> int {
    time.seconds + time.offset_minutes * 60
}

/// The earliest timestamp that has a calendar text: the first second of
/// the year -262143.
pub const EARLIEST_TIMESTAMP: i64 = -8_334_601_228_800;

/// The latest timestamp that has a calendar text: the last second of the
/// year 262142.
pub const LATEST_TIMESTAMP: i64 = 8_210_266_876_799;

/// The calendar text of a timestamp in UTC, in the form day, abbreviated
/// month name, year, and time of day: `15 May 2015 00:00:00`.
pub uninterp spec fn utc_calendar_text(timestamp: i64) -> Seq<char>;

/// Calls chrono's `Utc.timestamp_opt(timestamp, 0)` and renders the moment
/// with `format("%d %b %Y %H:%M:%S")`. chrono has a moment for a timestamp
/// exactly when its year lies between -262143 and 262142; the text depends
/// on the timestamp alone.
#[verifier::external_body]
fn calendar_text(timestamp: i64) -> (text: Option<String>)
    ensures
        text is Some <==> EARLIEST_TIMESTAMP <= timestamp <= LATEST_TIMESTAMP,
        text matches Some(t) ==> t@ == utc_calendar_text(timestamp),
{
    match Utc.timestamp_opt(timestamp, 0).single() {
        Some(moment) => Some(format!("{}", moment.format("%d %b %Y %H:%M:%S"))),
        None => None,
    }
}

/// The time of a commit as a number: the seconds since the epoch, moved by
/// the committer's offset.
pub fn format_time(time: &CommitTime) -> (text: String)
    ensures
        text@ == signed_decimal(local_seconds(*time)),
{
    let shifted: i128 = time.seconds as i128 + (time.offset_minutes as i128) * 60;
    let mut text = String::new();
    push_signed_decimal(&mut text, shifted);
    text
}

/// The calendar text of a timestamp in UTC.
pub fn format_timestamp(timestamp: i64) -> (text: String)
    requires
        EARLIEST_TIMESTAMP <= timestamp <= LATEST_TIMESTAMP,
    ensures
        text@ == utc_calendar_text(timestamp),
{
    calendar_text(timestamp).unwrap()
}

} // verus!
