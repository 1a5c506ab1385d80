//! Calendar dates of UNIX times.

use crate::digits;
use vstd::prelude::*;

verus! {

/// Is `y` a leap year of the Gregorian calendar?
pub open spec fn leap(y: int) -> bool {
    y % 4 == 0 && (y % 100 != 0 || y % 400 == 0)
}

/// The days of month `m` in year `y`.
pub open spec fn month_days(y: int, m: int) -> int {
    if m == 2 {
        if leap(y) {
            29
        } else {
            28
        }
    } else if m == 4 || m == 6 || m == 9 || m == 11 {
        30
    } else {
        31
    }
}

/// The days of year `y` before the first of month `m`.
pub open spec fn days_before_month(y: int, m: int) -> int
    decreases m,
{
    if m <= 1 {
        0
    } else {
        days_before_month(y, m - 1) + month_days(y, m - 1)
    }
}

/// The days from 1970-01-01 to the first of January of year `y`.
pub open spec fn days_before_year(y: int) -> int
    decreases y,
{
    if y <= 1970 {
        0
    } else {
        days_before_year(y - 1) + (if leap(y - 1) {
            366int
        } else {
            365
        })
    }
}

/// `y-m-d` is a date of the Gregorian calendar, from 1970 on.
pub open spec fn is_date(y: int, m: int, d: int) -> bool {
    1970 <= y && 1 <= m <= 12 && 1 <= d <= month_days(y, m)
}

/// The days from 1970-01-01 to `y-m-d`.
pub open spec fn day_number(y: int, m: int, d: int) -> int {
    days_before_year(y) + days_before_month(y, m) + d - 1
}

/// How a date is written.
pub open spec fn date_text(y: int, m: int, d: int) -> Seq<char> {
    digits::padded(y as nat, 4) + "-"@ + digits::padded(m as nat, 2) + "-"@ + digits::padded(
        d as nat,
        2,
    )
}

/// The leap days of the years `1..=y`.
spec fn leap_days(y: int) -> int {
    y / 4 - y / 100 + y / 400
}

proof fn days_before_year_closed(y: int)
    requires
        y >= 1970,
    ensures
        days_before_year(y) == 365 * (y - 1970) + leap_days(y - 1) - 477,
    decreases y,
{
    if y > 1970 {
        days_before_year_closed(y - 1);
        leap_days_step(y - 1);
    }
}

proof fn leap_days_step(y: int)
    requires
        y > 0,
    ensures
        leap_days(y) == leap_days(y - 1) + (if leap(y) {
            1int
        } else {
            0
        }),
{
    assert(y / 4 == (y - 1) / 4 + (if y % 4 == 0 {
        1int
    } else {
        0
    }));
    assert(y / 100 == (y - 1) / 100 + (if y % 100 == 0 {
        1int
    } else {
        0
    }));
    assert(y / 400 == (y - 1) / 400 + (if y % 400 == 0 {
        1int
    } else {
        0
    }));
}

proof fn months(y: int)
    ensures
        days_before_month(y, 1) == 0,
        days_before_month(y, 2) == 31,
        days_before_month(y, 3) == 31 + month_days(y, 2),
        days_before_month(y, 4) == 62 + month_days(y, 2),
        days_before_month(y, 5) == 92 + month_days(y, 2),
        days_before_month(y, 6) == 123 + month_days(y, 2),
        days_before_month(y, 7) == 153 + month_days(y, 2),
        days_before_month(y, 8) == 184 + month_days(y, 2),
        days_before_month(y, 9) == 215 + month_days(y, 2),
        days_before_month(y, 10) == 245 + month_days(y, 2),
        days_before_month(y, 11) == 276 + month_days(y, 2),
        days_before_month(y, 12) == 306 + month_days(y, 2),
        days_before_month(y, 13) == 337 + month_days(y, 2),
{
    reveal_with_fuel(days_before_month, 14);
}

/// A day has one date: two dates with the same number are the same.
pub proof fn date_is_unique(y: int, m: int, d: int, y2: int, m2: int, d2: int)
    requires
        is_date(y, m, d),
        is_date(y2, m2, d2),
        day_number(y, m, d) == day_number(y2, m2, d2),
    ensures
        y == y2 && m == m2 && d == d2,
{
    months(y);
    months(y2);
    if y < y2 {
        days_before_year_grows(y + 1, y2);
    } else if y2 < y {
        days_before_year_grows(y2 + 1, y);
    }
}

proof fn days_before_year_grows(a: int, b: int)
    requires
        1970 <= a <= b,
    ensures
        days_before_year(a) <= days_before_year(b),
    decreases b - a,
{
    if a < b {
        days_before_year_grows(a, b - 1);
    }
}

/// The year, month and day that `days` days after 1970-01-01 fall on. Years are
/// counted from March, so that the leap day is the last of its year.
fn civil(days: u64) -> (r: (u64, u64, u64))
    requires
        days <= 213503982334601,
    ensures
        is_date(r.0 as int, r.1 as int, r.2 as int),
        day_number(r.0 as int, r.1 as int, r.2 as int) == days,
        r.0 <= 600000000000,
{
    let z: u64 = days + 719468;
    let era: u64 = z / 146097;
    let of_era: u64 = z % 146097;
    let centuries: u64 = if of_era / 36524 > 3 {
        3
    } else {
        of_era / 36524
    };
    let of_century: u64 = of_era - centuries * 36524;
    let fours: u64 = of_century / 1461;
    let of_four: u64 = of_century - fours * 1461;
    let ones: u64 = if of_four / 365 > 3 {
        3
    } else {
        of_four / 365
    };
    let day: u64 = of_four - ones * 365;
    let year: u64 = era * 400 + centuries * 100 + fours * 4 + ones;
    proof {
        let y = year as int;
        assert(y / 4 == 100 * era + 25 * centuries + fours);
        assert(y / 100 == 4 * era + centuries);
        assert(y / 400 == era);
        assert(y + 1 >= 1970);
        days_before_year_closed(y + 1);
        assert(days == days_before_year(y + 1) - 306 + day);
        if y >= 1970 {
            assert(days_before_year(y + 1) == days_before_year(y) + 365 + (if leap(y) {
                1int
            } else {
                0
            }));
        }
        assert(day == 365 ==> leap(y + 1)) by {
            assert(leap_days(y + 1) >= 0);
            if day == 365 {
                assert(ones == 3);
                assert((y + 1) % 4 == 0);
                if (y + 1) % 100 == 0 {
                    assert(fours == 24);
                    assert(of_century == 36524);
                    assert(centuries == 3);
                    assert((y + 1) % 400 == 0);
                }
            }
        }
        months(y);
        months(y + 1);
    }
    if day < 31 {
        (year, 3, day + 1)
    } else if day < 61 {
        (year, 4, day - 30)
    } else if day < 92 {
        (year, 5, day - 60)
    } else if day < 122 {
        (year, 6, day - 91)
    } else if day < 153 {
        (year, 7, day - 121)
    } else if day < 184 {
        (year, 8, day - 152)
    } else if day < 214 {
        (year, 9, day - 183)
    } else if day < 245 {
        (year, 10, day - 213)
    } else if day < 275 {
        (year, 11, day - 244)
    } else if day < 306 {
        (year, 12, day - 274)
    } else if day < 337 {
        (year + 1, 1, day - 305)
    } else {
        (year + 1, 2, day - 336)
    }
}

/// `t` is the date of a UNIX time, or nothing for 0 (unknown).
pub open spec fn dates(epoch: u64, t: Seq<char>) -> bool {
    if epoch == 0 {
        t.len() == 0
    } else {
        exists|y: int, m: int, d: int|
            #![trigger is_date(y, m, d)]
            is_date(y, m, d) && day_number(y, m, d) == epoch / 86400 && t == date_text(y, m, d)
    }
}

/// `YYYY-MM-DD` for a UNIX time, or nothing for 0 (unknown).
pub fn format_date(epoch: u64) -> (r: String)
    ensures
        dates(epoch, r@),
{
    if epoch == 0 {
        return String::new();
    }
    let (y, m, d) = civil(epoch / 86400);
    let mut out: String = digits::dec_padded(y, 4);
    out.append("-");
    let month: String = digits::dec_padded(m, 2);
    out.append(month.as_str());
    out.append("-");
    let day: String = digits::dec_padded(d, 2);
    out.append(day.as_str());
    assert(out@ =~= date_text(y as int, m as int, d as int));
    assert(is_date(y as int, m as int, d as int));
    out
}

} // verus!
