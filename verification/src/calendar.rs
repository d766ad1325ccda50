//! Calendar dates as day numbers, and the contribution streaks counted over them.
use vstd::prelude::*;

use crate::numbers::{parse_i64_in, parse_i64_spec, parse_u32_in, parse_u32_spec};
use crate::text::{chars_of, split_bounds, split_spec};

verus! {

/// Whether `year` is a leap year of the proleptic Gregorian calendar.
pub open spec fn leap_spec(year: int) -> bool {
    year % 4 == 0 && (year % 100 != 0 || year % 400 == 0)
}

/// The number of days in `month` of `year`, for a month from 1 to 12.
pub open spec fn days_in_month_spec(year: int, month: int) -> Option<u32> {
    if month == 1 || month == 3 || month == 5 || month == 7 || month == 8 || month == 10 || month
        == 12 {
        Some(31)
    } else if month == 4 || month == 6 || month == 9 || month == 11 {
        Some(30)
    } else if month == 2 {
        if leap_spec(year) {
            Some(29)
        } else {
            Some(28)
        }
    } else {
        None
    }
}

/// The year counted from March, in which the calendar arithmetic is done.
pub open spec fn march_year(year: int, month: int) -> int {
    if month <= 2 {
        year - 1
    } else {
        year
    }
}

/// The number of days from 0000-03-01 of the proleptic Gregorian calendar to the given
/// date (negative before it).
pub open spec fn days_from_civil(year: int, month: int, day: int) -> int {
    let y = march_year(year, month);
    let era = y / 400;
    let yoe = y - era * 400;
    let mi = if month > 2 {
        month - 3
    } else {
        month + 9
    };
    let doy = (153 * mi + 2) / 5 + day - 1;
    let doe = yoe * 365 + yoe / 4 - yoe / 100 + doy;
    era * 146_097 + doe
}

/// Whether the day number of a date in `year` and `month` can be computed in `i64`.
pub open spec fn civil_fits(year: int, month: int) -> bool {
    let y = march_year(year, month);
    &&& y >= i64::MIN + 399
    &&& (y / 400) * 146_097 > i64::MIN
    &&& (y / 400) * 146_097 + 146_098 <= i64::MAX
}

/// The year, month and day parts of a `YYYY-MM-DD` date, parsed.
pub open spec fn date_parts(date: Seq<char>) -> Option<(i64, u32, u32)> {
    let parts = split_spec(date, '-');
    if parts.len() == 3 {
        match (parse_i64_spec(parts[0]), parse_u32_spec(parts[1]), parse_u32_spec(parts[2])) {
            (Some(y), Some(m), Some(d)) => Some((y, m, d)),
            _ => None,
        }
    } else {
        None
    }
}

/// Whether the date's day number, if it has one, can be computed in `i64`.
pub open spec fn date_fits(date: Seq<char>) -> bool {
    match date_parts(date) {
        Some((y, m, d)) => 1 <= m <= 12 ==> civil_fits(y as int, m as int),
        None => true,
    }
}

/// The day number of a valid `YYYY-MM-DD` date; nothing for any other text.
pub open spec fn day_number_spec(date: Seq<char>) -> Option<i64> {
    match date_parts(date) {
        Some((y, m, d)) => if 1 <= m <= 12 && d != 0 && d <= days_in_month_spec(
            y as int,
            m as int,
        )->0 {
            Some(days_from_civil(y as int, m as int, d as int) as i64)
        } else {
            None
        },
        None => None,
    }
}

pub fn is_leap_year(year: i64) -> (r: bool)
    ensures
        r == leap_spec(year as int),
{
    year % 4 == 0 && (year % 100 != 0 || year % 400 == 0)
}

pub fn days_in_month(year: i64, month: u32) -> (r: Option<u32>)
    ensures
        r == days_in_month_spec(year as int, month as int),
{
    if month == 1 || month == 3 || month == 5 || month == 7 || month == 8 || month == 10 || month
        == 12 {
        Some(31)
    } else if month == 4 || month == 6 || month == 9 || month == 11 {
        Some(30)
    } else if month == 2 {
        if is_leap_year(year) {
            Some(29)
        } else {
            Some(28)
        }
    } else {
        None
    }
}

fn floor_div_400(a: i64) -> (r: i64)
    ensures
        r == a as int / 400,
{
    if a >= 0 {
        a / 400
    } else {
        let t: i64 = -(a + 1);
        let k: i64 = t / 400;
        proof {
            assert((a as int) / 400 == -(k as int) - 1) by (nonlinear_arith)
                requires
                    t == -(a as int) - 1,
                    t >= 0,
                    k == t / 400,
            {
                vstd::arithmetic::div_mod::lemma_fundamental_div_mod(t as int, 400);
                vstd::arithmetic::div_mod::lemma_fundamental_div_mod(a as int, 400);
            }
        }
        -k - 1
    }
}

/// The number of days from 0000-03-01 to a valid date.
pub fn civil_day_number(year: i64, month: u32, day: u32) -> (r: i64)
    requires
        1 <= month <= 12,
        1 <= day <= 31,
        civil_fits(year as int, month as int),
    ensures
        r == days_from_civil(year as int, month as int, day as int),
{
    let y: i64 = if month <= 2 {
        year - 1
    } else {
        year
    };
    let era = floor_div_400(y);
    let yoe: i64 = y - era * 400;
    proof {
        vstd::arithmetic::div_mod::lemma_fundamental_div_mod(y as int, 400);
        assert(0 <= yoe < 400);
    }
    let mi: i64 = if month > 2 {
        month as i64 - 3
    } else {
        month as i64 + 9
    };
    proof {
        assert(0 <= (153 * mi + 2) / 5 <= 337) by (nonlinear_arith)
            requires
                0 <= mi <= 11,
        ;
        assert(0 <= yoe / 4 <= 99 && 0 <= yoe / 100 <= 3 && yoe / 100 <= yoe / 4) by (nonlinear_arith)
            requires
                0 <= yoe < 400,
        ;
        assert(0 <= yoe * 365 <= 145_635) by (nonlinear_arith)
            requires
                0 <= yoe < 400,
        ;
    }
    let doy: i64 = (153 * mi + 2) / 5 + day as i64 - 1;
    let doe: i64 = yoe * 365 + yoe / 4 - yoe / 100 + doy;
    era * 146_097 + doe
}

/// The day number of a valid `YYYY-MM-DD` date; nothing for any other text.
pub fn day_number(date: &str) -> (r: Option<i64>)
    requires
        date_fits(date@),
    ensures
        r == day_number_spec(date@),
{
    let chars = chars_of(date);
    let parts = split_bounds(&chars, '-');
    if parts.len() != 3 {
        return None;
    }
    let (y0, y1) = parts[0];
    let (m0, m1) = parts[1];
    let (d0, d1) = parts[2];
    let year = match parse_i64_in(&chars, y0, y1) {
        Some(v) => v,
        None => return None,
    };
    let month = match parse_u32_in(&chars, m0, m1) {
        Some(v) => v,
        None => return None,
    };
    let day = match parse_u32_in(&chars, d0, d1) {
        Some(v) => v,
        None => return None,
    };
    if month < 1 || month > 12 || day == 0 {
        return None;
    }
    let max_day = match days_in_month(year, month) {
        Some(v) => v,
        None => return None,
    };
    if day > max_day {
        return None;
    }
    Some(civil_day_number(year, month, day))
}

/// A day number lies strictly between the least and the greatest `i64`.
pub proof fn lemma_day_number_range(date: Seq<char>)
    requires
        date_fits(date),
    ensures
        day_number_spec(date) matches Some(o) ==> i64::MIN < o < i64::MAX,
{
    match date_parts(date) {
        Some((y, m, d)) => {
            if 1 <= m <= 12 && d != 0 && d <= days_in_month_spec(y as int, m as int)->0 {
                let yy = march_year(y as int, m as int);
                let era = yy / 400;
                let yoe = yy - era * 400;
                let mi: int = if m > 2 {
                    m - 3
                } else {
                    m + 9
                };
                vstd::arithmetic::div_mod::lemma_fundamental_div_mod(yy, 400);
                assert(0 <= (153 * mi + 2) / 5 <= 337) by (nonlinear_arith)
                    requires
                        0 <= mi <= 11,
                ;
                assert(0 <= yoe / 4 <= 99 && 0 <= yoe / 100 <= 3 && yoe / 100 <= yoe / 4) by (nonlinear_arith)
                    requires
                        0 <= yoe < 400,
                ;
                assert(0 <= yoe * 365 <= 145_635) by (nonlinear_arith)
                    requires
                        0 <= yoe < 400,
                ;
            }
        },
        None => {},
    }
}

} // verus!
