//! Calendar dates and the rule that picks which day a diary entry belongs to:
//! before 15 o'clock local time the entry still counts as the previous day's.

use vstd::prelude::*;

verus! {

/// The smallest year a local timestamp can carry (the range chrono's
/// `NaiveDate` supports).
pub const MIN_TIMESTAMP_YEAR: i32 = -262143;

/// The largest year a local timestamp can carry (the range chrono's
/// `NaiveDate` supports).
pub const MAX_TIMESTAMP_YEAR: i32 = 262142;

/// A proleptic Gregorian calendar date.
#[derive(Clone, Copy, PartialEq, Eq, Structural, Debug)]
pub struct Date {
    pub year: i32,
    pub month: u32,
    pub day: u32,
}

/// A local wall-clock timestamp, reduced to the fields the diary reads.
#[derive(Clone, Copy, PartialEq, Eq, Structural, Debug)]
pub struct LocalTime {
    pub year: i32,
    pub month: u32,
    pub day: u32,
    pub hour: u32,
}

/// Whether a year is a leap year in the proleptic Gregorian calendar.
pub open spec fn is_leap_year(y: int) -> bool {
    (y % 4 == 0 && y % 100 != 0) || y % 400 == 0
}

/// The number of days in a month of a given year.
pub open spec fn days_in_month(y: int, m: int) -> int {
    if m == 2 {
        if is_leap_year(y) {
            29
        } else {
            28
        }
    } else if m == 4 || m == 6 || m == 9 || m == 11 {
        30
    } else {
        31
    }
}

impl Date {
    /// A well-formed date: the month exists and the day exists in that month.
    pub open spec fn wf(self) -> bool {
        &&& 1 <= self.month <= 12
        &&& 1 <= self.day <= days_in_month(self.year as int, self.month as int)
    }
}

impl LocalTime {
    /// The calendar date of the timestamp.
    pub open spec fn date(self) -> Date {
        Date { year: self.year, month: self.month, day: self.day }
    }

    /// A well-formed timestamp: a valid date, a valid hour, and a year that a
    /// local clock reading can produce.
    pub open spec fn wf(self) -> bool {
        &&& self.date().wf()
        &&& self.hour <= 23
        &&& MIN_TIMESTAMP_YEAR <= self.year <= MAX_TIMESTAMP_YEAR
    }
}

/// The calendar day immediately before a date.
pub open spec fn spec_previous_day(d: Date) -> Date {
    if d.day > 1 {
        Date { year: d.year, month: d.month, day: (d.day - 1) as u32 }
    } else if d.month > 1 {
        Date {
            year: d.year,
            month: (d.month - 1) as u32,
            day: days_in_month(d.year as int, d.month as int - 1) as u32,
        }
    } else {
        Date { year: (d.year - 1) as i32, month: 12, day: 31 }
    }
}

/// The date a diary entry written at a given local time belongs to: the hours
/// up to and including 14 still count as the previous day.
pub open spec fn spec_target_date(t: LocalTime) -> Date {
    if t.hour <= 14 {
        spec_previous_day(t.date())
    } else {
        t.date()
    }
}

/// Whether a year is a leap year in the proleptic Gregorian calendar.
pub fn leap_year(y: i32) -> (r: bool)
    ensures
        r == is_leap_year(y as int),
{
    (y % 4 == 0 && y % 100 != 0) || y % 400 == 0
}

/// The number of days in a month of a given year.
pub fn month_length(y: i32, m: u32) -> (r: u32)
    requires
        1 <= m <= 12,
    ensures
        r == days_in_month(y as int, m as int),
{
    if m == 2 {
        if leap_year(y) {
            29
        } else {
            28
        }
    } else if m == 4 || m == 6 || m == 9 || m == 11 {
        30
    } else {
        31
    }
}

/// The calendar day immediately before a date.
pub fn previous_day(d: Date) -> (r: Date)
    requires
        d.wf(),
        d.year > i32::MIN,
    ensures
        r == spec_previous_day(d),
        r.wf(),
{
    if d.day > 1 {
        Date { year: d.year, month: d.month, day: d.day - 1 }
    } else if d.month > 1 {
        let m = d.month - 1;
        Date { year: d.year, month: m, day: month_length(d.year, m) }
    } else {
        Date { year: d.year - 1, month: 12, day: 31 }
    }
}

/// The date a diary entry written at a given local time belongs to.
///
/// An entry opened in the hours 0 through 14 is filed under the previous
/// day; from hour 15 on it is filed under the current day.
pub fn target_date(t: LocalTime) -> (r: Date)
    requires
        t.wf(),
    ensures
        r == spec_target_date(t),
        r.wf(),
{
    if t.hour <= 14 {
        previous_day(Date { year: t.year, month: t.month, day: t.day })
    } else {
        Date { year: t.year, month: t.month, day: t.day }
    }
}

} // verus!
