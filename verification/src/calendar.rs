//! Calendar timestamps, their validity within the device's century
//! window, and the weekday remapping between the calendar's Monday-based
//! numbering and the device's Sunday-based weekday code.

use vstd::prelude::*;

use chrono::Datelike;

verus! {

/// A calendar timestamp in UTC.
///
/// The device stores only a two-digit year offset from 2000, so a
/// timestamp is storable exactly when `spec_valid_timestamp` holds:
/// the year lies in [2000, 2100) and the remaining fields form a real
/// Gregorian date and time of day.
#[derive(Clone, Copy, Debug, PartialEq, Eq, Structural)]
pub struct Timestamp {
    pub year: u16,
    pub month: u8,
    pub day: u8,
    pub hour: u8,
    pub minute: u8,
    pub second: u8,
}

/// Whether a year is a Gregorian leap year.
pub open spec fn spec_is_leap_year(y: int) -> bool {
    y % 4 == 0 && (y % 100 != 0 || y % 400 == 0)
}

/// The number of days in a month of the Gregorian calendar.
pub open spec fn spec_days_in_month(y: int, m: int) -> int {
    if m == 2 {
        if spec_is_leap_year(y) {
            29
        } else {
            28
        }
    } else if m == 4 || m == 6 || m == 9 || m == 11 {
        30
    } else {
        31
    }
}

/// Whether a timestamp is a real calendar date and time of day within
/// the century window the device can store.
pub open spec fn spec_valid_timestamp(ts: Timestamp) -> bool {
    &&& 2000 <= ts.year < 2100
    &&& 1 <= ts.month <= 12
    &&& 1 <= ts.day <= spec_days_in_month(ts.year as int, ts.month as int)
    &&& ts.hour < 24
    &&& ts.minute < 60
    &&& ts.second < 60
}

/// Whether a year is a Gregorian leap year.
pub fn is_leap_year(y: u16) -> (r: bool)
    ensures
        r == spec_is_leap_year(y as int),
{
    y % 4 == 0 && (y % 100 != 0 || y % 400 == 0)
}

/// The number of days in a month of the Gregorian calendar.
pub fn days_in_month(y: u16, m: u8) -> (r: u8)
    ensures
        r == spec_days_in_month(y as int, m as int),
{
    if m == 2 {
        if is_leap_year(y) {
            29
        } else {
            28
        }
    } else if m == 4 || m == 6 || m == 9 || m == 11 {
        30
    } else {
        31
    }
}

impl Timestamp {
    /// True exactly when the timestamp is a real calendar date and time
    /// of day within the device's century window.
    pub fn is_valid(&self) -> (r: bool)
        ensures
            r == spec_valid_timestamp(*self),
    {
        2000 <= self.year && self.year < 2100 && 1 <= self.month && self.month <= 12
            && 1 <= self.day && self.day <= days_in_month(self.year, self.month)
            && self.hour < 24 && self.minute < 60 && self.second < 60
    }
}

/// The weekday number of a valid Gregorian date, with Monday as 1 and
/// Sunday as 7. Left abstract; it is fixed by the trusted item below.
pub uninterp spec fn weekday_from_monday(y: int, m: int, d: int) -> int;

/// Relies on chrono's `NaiveDate::from_ymd_opt`, `Datelike::weekday` and
/// `Weekday::number_from_monday`: for a valid Gregorian date, the
/// weekday is a function of the date alone, numbered 1 (Monday) through
/// 7 (Sunday).
#[verifier::external_body]
pub(crate) fn weekday_of(y: u16, m: u8, d: u8) -> (r: u32)
    requires
        2000 <= y < 2100,
        1 <= m <= 12,
        1 <= d <= spec_days_in_month(y as int, m as int),
    ensures
        r == weekday_from_monday(y as int, m as int, d as int),
        1 <= r <= 7,
{
    let date = chrono::NaiveDate::from_ymd_opt(y as i32, m as u32, d as u32).unwrap();
    date.weekday().number_from_monday()
}

/// The device's weekday code for a Monday-based weekday number: Sunday,
/// numbered 7 by the calendar, becomes code 0; Monday (1) through
/// Saturday (6) keep their number.
pub open spec fn spec_remap_weekday(n: int) -> int {
    if n == 7 {
        0
    } else {
        n
    }
}

/// Remaps a calendar weekday number (Monday = 1 ... Sunday = 7) to the
/// device's weekday code (Sunday = 0 ... Saturday = 6).
pub fn remap_weekday(n: u32) -> (r: u32)
    ensures
        r == spec_remap_weekday(n as int),
{
    if n == 7 {
        0
    } else {
        n
    }
}

} // verus!
