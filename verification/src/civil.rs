//! Proleptic-Gregorian calendar arithmetic: from a civil date to the number
//! of days since 1970-01-01, the time scale on which blocking intervals live.

use vstd::prelude::*;

verus! {

pub open spec fn spec_is_leap_year(y: int) -> bool {
    y % 4 == 0 && (y % 100 != 0 || y % 400 == 0)
}

pub open spec fn spec_days_in_year(y: int) -> int {
    if spec_is_leap_year(y) {
        366
    } else {
        365
    }
}

/// Days between 1970-01-01 and the first day of year `y` (negative for years
/// before 1970).
pub open spec fn spec_days_before_year(y: int) -> int
    decreases (if y >= 1970 {
        y - 1970
    } else {
        1970 - y
    }),
{
    if y == 1970 {
        0
    } else if y > 1970 {
        spec_days_before_year(y - 1) + spec_days_in_year(y - 1)
    } else {
        spec_days_before_year(y + 1) - spec_days_in_year(y)
    }
}

pub open spec fn spec_days_in_month(y: int, m: int) -> int {
    if m == 2 {
        if spec_is_leap_year(y) {
            29
        } else {
            28
        }
    } else if m == 4 || m == 6 || m == 9 || m == 11 {
        30
    } else {
        31
    }
}

/// Days between the first of January and the first of month `m` of year `y`.
pub open spec fn spec_days_before_month(y: int, m: int) -> int
    decreases m,
{
    if m <= 1 {
        0
    } else {
        spec_days_before_month(y, m - 1) + spec_days_in_month(y, m - 1)
    }
}

/// Day number of the civil date `y-m-d`, counted from 1970-01-01 as day 0.
pub open spec fn spec_days_from_civil(y: int, m: int, d: int) -> int {
    spec_days_before_year(y) + spec_days_before_month(y, m) + (d - 1)
}

/// Years far beyond what any calendar source can produce; keeps the day
/// arithmetic well inside `i64`.
pub const YEAR_BOUND: i32 = 300_000;

proof fn lemma_days_before_year_bound(y: int)
    requires
        -YEAR_BOUND <= y <= YEAR_BOUND,
    ensures
        y >= 1970 ==> 365 * (y - 1970) <= spec_days_before_year(y) <= 366 * (y - 1970),
        y < 1970 ==> -366 * (1970 - y) <= spec_days_before_year(y) <= -365 * (1970 - y),
    decreases (if y >= 1970 {
        y - 1970
    } else {
        1970 - y
    }),
{
    if y > 1970 {
        lemma_days_before_year_bound(y - 1);
    } else if y < 1970 {
        lemma_days_before_year_bound(y + 1);
    }
}

fn is_leap_year(y: i32) -> (r: bool)
    ensures
        r == spec_is_leap_year(y as int),
{
    y % 4 == 0 && (y % 100 != 0 || y % 400 == 0)
}

fn days_in_year(y: i32) -> (r: i64)
    ensures
        r == spec_days_in_year(y as int),
{
    if is_leap_year(y) {
        366
    } else {
        365
    }
}

fn days_in_month(y: i32, m: u8) -> (r: i64)
    ensures
        r == spec_days_in_month(y as int, m as int),
{
    if m == 2 {
        if is_leap_year(y) {
            29
        } else {
            28
        }
    } else if m == 4 || m == 6 || m == 9 || m == 11 {
        30
    } else {
        31
    }
}

/// Number of days from 1970-01-01 to the civil date `year-month-day`
/// (negative for earlier dates).
pub fn days_from_civil(year: i32, month: u8, day: u8) -> (r: i64)
    requires
        -YEAR_BOUND <= year <= YEAR_BOUND,
        1 <= month <= 12,
        1 <= day <= 31,
    ensures
        r == spec_days_from_civil(year as int, month as int, day as int),
        -111_000_000 <= r <= 111_000_000,
{
    let mut acc: i64 = 0;
    if year >= 1970 {
        let mut y: i32 = 1970;
        while y < year
            invariant
                1970 <= y <= year <= YEAR_BOUND,
                acc == spec_days_before_year(y as int),
                0 <= acc <= 366 * (y - 1970),
            decreases year - y,
        {
            proof {
                lemma_days_before_year_bound(y as int + 1);
            }
            acc = acc + days_in_year(y);
            y = y + 1;
        }
    } else {
        let mut y: i32 = 1970;
        while y > year
            invariant
                -YEAR_BOUND <= year <= y <= 1970,
                acc == spec_days_before_year(y as int),
                -366 * (1970 - y) <= acc <= 0,
            decreases y - year,
        {
            proof {
                lemma_days_before_year_bound(y as int - 1);
            }
            acc = acc - days_in_year(y - 1);
            y = y - 1;
        }
    }
    proof {
        lemma_days_before_year_bound(year as int);
    }
    let mut m: u8 = 1;
    let mut month_days: i64 = 0;
    while m < month
        invariant
            1 <= m <= month <= 12,
            month_days == spec_days_before_month(year as int, m as int),
            0 <= month_days <= 31 * (m - 1),
        decreases month - m,
    {
        month_days = month_days + days_in_month(year, m);
        m = m + 1;
    }
    acc + month_days + ((day - 1) as i64)
}

} // verus!
