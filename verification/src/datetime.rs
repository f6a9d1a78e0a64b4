//! Plain calendar timestamps.
//!
//! The modem prints dates and times as digit groups; this module holds them
//! as plain year/month/day and hour/minute/second fields, checked against
//! the Gregorian calendar. Conversion to a time-zone aware value is the
//! caller's business.

use vstd::prelude::*;

verus! {

/// A wall-clock timestamp: calendar date and time of day, no time zone.
#[derive(Clone, Copy, Debug, PartialEq, Eq, Structural)]
pub struct Timestamp {
    pub year: u16,
    pub month: u8,
    pub day: u8,
    pub hour: u8,
    pub minute: u8,
    pub second: u8,
}

/// Gregorian leap years.
pub open spec fn is_leap_year(y: int) -> bool {
    y % 4 == 0 && (y % 100 != 0 || y % 400 == 0)
}

/// Days in a month of the Gregorian calendar.
pub open spec fn days_in_month(y: int, m: int) -> int {
    if m == 2 {
        if is_leap_year(y) {
            29
        } else {
            28
        }
    } else if m == 4 || m == 6 || m == 9 || m == 11 {
        30
    } else {
        31
    }
}

/// A timestamp whose fields name a real calendar date and time of day.
pub open spec fn timestamp_valid(ts: Timestamp) -> bool {
    &&& 1 <= ts.month <= 12
    &&& 1 <= ts.day <= days_in_month(ts.year as int, ts.month as int)
    &&& ts.hour < 24
    &&& ts.minute < 60
    &&& ts.second < 60
}

/// The timestamp made of the given fields, when they name a real calendar
/// date and time of day.
pub open spec fn timestamp_of(
    year: int,
    month: int,
    day: int,
    hour: int,
    minute: int,
    second: int,
) -> Option<Timestamp> {
    if 0 <= year <= 9999 && 0 < month && 0 < day && 0 <= hour && 0 <= minute && 0
        <= second {
        let ts = Timestamp {
            year: year as u16,
            month: month as u8,
            day: day as u8,
            hour: hour as u8,
            minute: minute as u8,
            second: second as u8,
        };
        if month <= 12 && day <= days_in_month(year, month) && hour < 24 && minute
            < 60 && second < 60 {
            Some(ts)
        } else {
            None
        }
    } else {
        None
    }
}

impl Timestamp {
    /// Builds a timestamp from its fields, refusing anything that is not a
    /// real calendar date and time of day.
    pub fn make(year: u16, month: u8, day: u8, hour: u8, minute: u8, second: u8) -> (r:
        Option<Timestamp>)
        ensures
            r == timestamp_of(
                year as int,
                month as int,
                day as int,
                hour as int,
                minute as int,
                second as int,
            ),
            r matches Some(ts) ==> timestamp_valid(ts),
    {
        if year > 9999 || month < 1 || month > 12 || day < 1 || hour > 23 || minute
            > 59 || second > 59 {
            return None;
        }
        let dim: u8 = if month == 2 {
            let leap = year % 4 == 0 && (year % 100 != 0 || year % 400 == 0);
            if leap {
                29
            } else {
                28
            }
        } else if month == 4 || month == 6 || month == 9 || month == 11 {
            30
        } else {
            31
        };
        if day > dim {
            return None;
        }
        Some(Timestamp { year, month, day, hour, minute, second })
    }
}

} // verus!
