//! The wall clock and the calendar, through the `chrono` crate.

use vstd::prelude::*;

verus! {

/// The first second that the calendar covers, counted from the Unix epoch:
/// the start of the year -262143.
pub const FIRST_CALENDAR_SECOND: i64 = -8_334_601_228_800;

/// The last second that the calendar covers, counted from the Unix epoch:
/// the end of the year 262142.
pub const LAST_CALENDAR_SECOND: i64 = 8_210_266_876_799;

/// The first second of the year 0, counted from the Unix epoch.
pub const FIRST_SHOWN_SECOND: i64 = -62_167_219_200;

/// The last second of the year 9999, counted from the Unix epoch.
pub const LAST_SHOWN_SECOND: i64 = 253_402_300_799;

/// Whether a timestamp lies within what the calendar covers.
pub open spec fn in_calendar(timestamp: i64) -> bool {
    FIRST_CALENDAR_SECOND <= timestamp <= LAST_CALENDAR_SECOND
}

/// Whether a timestamp can be written as a date: it lies in the years 0 to
/// 9999, or outside of what the calendar covers, where the date is written
/// as nothing.
pub open spec fn has_date_text(timestamp: i64) -> bool {
    !in_calendar(timestamp) || FIRST_SHOWN_SECOND <= timestamp <= LAST_SHOWN_SECOND
}

/// The date and time, in UTC, that a number of seconds since the Unix epoch
/// stands for, written as RFC 2822 asks.
pub uninterp spec fn rfc2822_text(timestamp: i64) -> Seq<char>;

/// Calls `chrono::Utc::now` and takes the whole seconds since the Unix
/// epoch. Nothing is assumed of the result.
#[verifier::external_body]
pub(crate) fn unix_time_now() -> i64 {
    chrono::Utc::now().timestamp()
}

/// Calls `chrono::DateTime::from_timestamp`, and `to_rfc2822` on the date it
/// returns. Within the calendar and outside the years 0 to 9999
/// `to_rfc2822` panics. Assumed: the text is a function of the timestamp
/// alone, named [`rfc2822_text`], and is empty outside the calendar, where
/// `from_timestamp` returns no date.
#[verifier::external_body]
pub(crate) fn rfc2822_date(timestamp: i64) -> (text: String)
    requires
        has_date_text(timestamp),
    ensures
        text@ == rfc2822_text(timestamp),
        !in_calendar(timestamp) ==> text@.len() == 0,
{
    match chrono::DateTime::from_timestamp(timestamp, 0) {
        Some(date) => date.to_rfc2822(),
        None => String::new(),
    }
}

} // verus!
