use vstd::prelude::*;

verus! {

/// A calendar date in the proleptic Gregorian calendar, held as plain
/// year, month and day fields.
#[derive(Clone, Copy, PartialEq, Eq, Structural, Debug)]
pub struct Date {
    pub year: i32,
    pub month: u8,
    pub day: u8,
}

pub open spec fn leap_year(y: int) -> bool {
    (y % 4 == 0 && y % 100 != 0) || y % 400 == 0
}

pub open spec fn days_in_month(y: int, m: int) -> int {
    if m == 2 {
        if leap_year(y) {
            29
        } else {
            28
        }
    } else if m == 4 || m == 6 || m == 9 || m == 11 {
        30
    } else {
        31
    }
}

impl Date {
    /// A well-formed date: a real day of the calendar, with the year in
    /// the four-digit range that the stored date strings can carry.
    pub open spec fn valid(self) -> bool {
        &&& 1 <= self.year <= 9999
        &&& 1 <= self.month <= 12
        &&& 1 <= self.day <= days_in_month(self.year as int, self.month as int)
    }
}

/// `a` is on or before `b` in calendar order.
pub open spec fn date_le(a: Date, b: Date) -> bool {
    ||| a.year < b.year
    ||| (a.year == b.year && a.month < b.month)
    ||| (a.year == b.year && a.month == b.month && a.day <= b.day)
}

/// The rank of a date in a linear day count: consecutive calendar days map
/// to consecutive numbers. The era/year-of-era decomposition below counts
/// whole 400-year cycles first and starts each counted year in March, so
/// that the leap day is the last day of its counted year.
pub open spec fn day_number(d: Date) -> int {
    let m = d.month as int;
    let y: int = if m <= 2 {
        d.year - 1
    } else {
        d.year as int
    };
    let era = y / 400;
    let yoe = y % 400;
    let mp: int = if m > 2 {
        m - 3
    } else {
        m + 9
    };
    let doy = (153 * mp + 2) / 5 + d.day - 1;
    let doe = yoe * 365 + yoe / 4 - yoe / 100 + doy;
    era * 146097 + doe
}

/// An upper bound on the day number of any valid date.
pub const MAX_DAY_NUMBER: i64 = 3_700_000;

/// Computes the day number of a valid date.
pub fn day_number_of(d: &Date) -> (r: i64)
    requires
        d.valid(),
    ensures
        r == day_number(*d),
        0 <= r <= MAX_DAY_NUMBER,
{
    let m: u64 = d.month as u64;
    let y: u64 = if m <= 2 {
        (d.year - 1) as u64
    } else {
        d.year as u64
    };
    let era: u64 = y / 400;
    let yoe: u64 = y % 400;
    let mp: u64 = if m > 2 {
        m - 3
    } else {
        m + 9
    };
    let doy: u64 = (153 * mp + 2) / 5 + d.day as u64 - 1;
    let doe: u64 = yoe * 365 + yoe / 4 - yoe / 100 + doy;
    (era * 146097 + doe) as i64
}

/// The fixed analysis cutoff that stands in for the end of an open-ended
/// position.
pub open spec fn cutoff_date() -> Date {
    Date { year: 2024, month: 12, day: 31 }
}

/// Returns the fixed analysis cutoff date.
pub fn analysis_cutoff() -> (r: Date)
    ensures
        r == cutoff_date(),
        r.valid(),
{
    Date { year: 2024, month: 12, day: 31 }
}

} // verus!
