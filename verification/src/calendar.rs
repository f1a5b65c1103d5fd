//! Calendar fields of an instant in UTC.
//!
//! An instant is a count of non-leap seconds since 1970-01-01T00:00:00Z. The
//! clock fields follow from the count by division; the month and the day of
//! the month come from the proleptic Gregorian calendar of `chrono`.

use vstd::prelude::*;
use chrono::{Datelike, TimeZone, Timelike};

verus! {

/// The earliest instant that has calendar fields: the first second of the
/// year -262143.
pub const MIN_UTC_SECONDS: i64 = -8_334_601_228_800;

/// The latest instant that has calendar fields: the last second of the year
/// 262142.
pub const MAX_UTC_SECONDS: i64 = 8_210_266_876_799;

/// The month, from 1 to 12, in which an instant falls in UTC.
pub uninterp spec fn utc_month(secs: int) -> int;

/// The day of the month, from 1 to 31, on which an instant falls in UTC.
pub uninterp spec fn utc_day(secs: int) -> int;

/// Whether an instant has calendar fields.
pub open spec fn representable(secs: int) -> bool {
    MIN_UTC_SECONDS <= secs <= MAX_UTC_SECONDS
}

/// The hour of the day, from 0 to 23, of an instant in UTC.
pub open spec fn utc_hour(secs: int) -> int {
    (secs % 86_400) / 3_600
}

/// The minute of the hour, from 0 to 59, of an instant.
pub open spec fn utc_minute(secs: int) -> int {
    (secs % 3_600) / 60
}

/// The second of the minute, from 0 to 59, of an instant.
pub open spec fn utc_second(secs: int) -> int {
    secs % 60
}

/// The calendar fields of an instant in UTC, to the second. The year is left
/// out: a trigger expression has no field for it.
#[derive(Debug, Clone, Copy, PartialEq, Eq, Structural)]
pub struct CalendarTime {
    pub month: u32,
    pub day: u32,
    pub hour: u32,
    pub minute: u32,
    pub second: u32,
}

impl CalendarTime {
    /// Every field lies in its calendar range.
    pub open spec fn in_range(self) -> bool {
        &&& 1 <= self.month <= 12
        &&& 1 <= self.day <= 31
        &&& self.hour <= 23
        &&& self.minute <= 59
        &&& self.second <= 59
    }

    /// Whether these are the fields of the instant `secs`.
    pub open spec fn is_time_of(self, secs: int) -> bool {
        &&& self.month == utc_month(secs)
        &&& self.day == utc_day(secs)
        &&& self.hour == utc_hour(secs)
        &&& self.minute == utc_minute(secs)
        &&& self.second == utc_second(secs)
    }

    /// The calendar fields of an instant in UTC, or `None` where the instant
    /// lies outside the calendar's years.
    pub fn from_timestamp(secs: i64) -> (time: Option<CalendarTime>)
        ensures
            time.is_some() == representable(secs as int),
            time matches Some(t) ==> t.is_time_of(secs as int) && t.in_range(),
    {
        utc_fields(secs)
    }
}

/// Calls `chrono::Utc.timestamp_opt(secs, 0)` and reads the fields of the
/// date and time it gives with `month`, `day`, `hour`, `minute` and `second`.
///
/// Claimed of `chrono`: the call gives a single date and time exactly for the
/// instants from the first second of the year -262143 to the last second of
/// the year 262142, and nothing outside them; the clock fields are the
/// remainders of the count of seconds by the day, the hour and the minute;
/// the month lies in 1..=12 and the day in 1..=31, and both depend on the
/// instant alone.
#[verifier::external_body]
fn utc_fields(secs: i64) -> (time: Option<CalendarTime>)
    ensures
        time.is_some() == (MIN_UTC_SECONDS <= secs <= MAX_UTC_SECONDS),
        time matches Some(t) ==> {
            &&& t.month == utc_month(secs as int)
            &&& t.day == utc_day(secs as int)
            &&& t.hour == (secs as int % 86_400) / 3_600
            &&& t.minute == (secs as int % 3_600) / 60
            &&& t.second == secs as int % 60
            &&& 1 <= t.month <= 12
            &&& 1 <= t.day <= 31
        },
{
    match chrono::Utc.timestamp_opt(secs, 0) {
        chrono::LocalResult::Single(t) => Some(
            CalendarTime {
                month: t.month(),
                day: t.day(),
                hour: t.hour(),
                minute: t.minute(),
                second: t.second(),
            },
        ),
        _ => None,
    }
}

} // verus!
