//! A plain calendar date.
//!
//! The cache layer only ever reads a date's year, month and day — to
//! build a partition's file path and to compare records against a
//! query date — so a date is modelled directly as those three fields,
//! with the Gregorian validity rules as its invariant. Years are kept
//! within four digits, matching the `YYYY/MM/DD` layout of the
//! partition tree.

use vstd::prelude::*;

verus! {

/// A Gregorian year is a leap year when it is divisible by 4 but not
/// by 100, or divisible by 400.
pub open spec fn spec_is_leap_year(y: int) -> bool {
    (y % 4 == 0 && y % 100 != 0) || y % 400 == 0
}

/// How many days the given month of the given year has.
pub open spec fn spec_days_in_month(y: int, m: int) -> int {
    if m == 2 {
        if spec_is_leap_year(y) {
            29
        } else {
            28
        }
    } else if m == 4 || m == 6 || m == 9 || m == 11 {
        30
    } else {
        31
    }
}

/// The dates this crate can address: four-digit years, real months,
/// and days that exist in their month.
pub open spec fn spec_valid_date(y: int, m: int, d: int) -> bool {
    &&& 1 <= y <= 9999
    &&& 1 <= m <= 12
    &&& 1 <= d <= spec_days_in_month(y, m)
}

/// A calendar date, valid by construction when obtained from
/// [`Date::new`].
#[derive(Debug, Clone, Copy, PartialEq, Eq, Hash, Structural)]
pub struct Date {
    pub year: u16,
    pub month: u8,
    pub day: u8,
}

pub fn is_leap_year(y: u16) -> (r: bool)
    ensures
        r == spec_is_leap_year(y as int),
{
    (y % 4 == 0 && y % 100 != 0) || y % 400 == 0
}

pub fn days_in_month(y: u16, m: u8) -> (r: u8)
    ensures
        r == spec_days_in_month(y as int, m as int),
{
    if m == 2 {
        if is_leap_year(y) {
            29
        } else {
            28
        }
    } else if m == 4 || m == 6 || m == 9 || m == 11 {
        30
    } else {
        31
    }
}

impl Date {
    /// The date is well formed under the Gregorian rules.
    pub open spec fn valid(self) -> bool {
        spec_valid_date(self.year as int, self.month as int, self.day as int)
    }

    /// Builds a date, accepting exactly the well-formed ones.
    pub fn new(year: u16, month: u8, day: u8) -> (r: Option<Date>)
        ensures
            r is Some <==> spec_valid_date(year as int, month as int, day as int),
            r is Some ==> r->0 == (Date { year, month, day }) && r->0.valid(),
    {
        if 1 <= year && year <= 9999 && 1 <= month && month <= 12 && 1 <= day && day
            <= days_in_month(year, month) {
            Some(Date { year, month, day })
        } else {
            None
        }
    }

    /// The calendar day after `self`, when it is still addressable.
    pub open spec fn spec_succ(self) -> Option<Date> {
        if self.day < spec_days_in_month(self.year as int, self.month as int) {
            Some(Date { day: (self.day + 1) as u8, ..self })
        } else if self.month < 12 {
            Some(Date { month: (self.month + 1) as u8, day: 1, ..self })
        } else if self.year < 9999 {
            Some(Date { year: (self.year + 1) as u16, month: 1, day: 1 })
        } else {
            None
        }
    }

    /// The next calendar day: the day after the last day of a month
    /// is the first of the next month, and the day after December 31
    /// is January 1 of the next year. Only the last addressable date
    /// has no successor.
    pub fn succ(&self) -> (r: Option<Date>)
        requires
            self.valid(),
        ensures
            r == self.spec_succ(),
            r is Some ==> r->0.valid(),
    {
        if self.day < days_in_month(self.year, self.month) {
            Some(Date { day: self.day + 1, ..*self })
        } else if self.month < 12 {
            Some(Date { month: self.month + 1, day: 1, ..*self })
        } else if self.year < 9999 {
            Some(Date { year: self.year + 1, month: 1, day: 1 })
        } else {
            None
        }
    }
}

} // verus!
