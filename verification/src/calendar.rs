//! The proleptic Gregorian calendar: day counts since 1970-01-01 and the
//! civil dates they name.

use vstd::prelude::*;

verus! {

/// Rust's `/` on integers: truncation toward zero.
pub open spec fn tdiv(a: int, b: int) -> int {
    if a >= 0 {
        a / b
    } else {
        -((-a) / b)
    }
}

/// A leap year of the Gregorian calendar.
pub open spec fn is_leap(y: int) -> bool {
    (y % 4 == 0 && y % 100 != 0) || y % 400 == 0
}

pub open spec fn year_days(y: int) -> int {
    if is_leap(y) {
        366
    } else {
        365
    }
}

/// The days of the years from 1970 up to `y` (none before 1970 are
/// counted).
pub open spec fn days_before_year(y: int) -> int
    decreases y - 1970,
{
    if y <= 1970 {
        0
    } else {
        days_before_year(y - 1) + year_days(y - 1)
    }
}

/// The length of month `m` (1..=12) of year `y`.
pub open spec fn month_days(m: int, y: int) -> int {
    if m == 2 {
        if is_leap(y) {
            29
        } else {
            28
        }
    } else if m == 4 || m == 6 || m == 9 || m == 11 {
        30
    } else {
        31
    }
}

/// The days of the months of `y` before month `m`.
pub open spec fn days_before_month(m: int, y: int) -> int
    decreases m,
{
    if m <= 1 {
        0
    } else {
        days_before_month(m - 1, y) + month_days(m - 1, y)
    }
}

/// Seconds since 1970 of a calendar date and time, when they fit `i64`.
pub open spec fn civil_secs(y: int, m: int, d: int, hh: int, mm: int) -> Option<i64> {
    let t = (days_before_year(y) + days_before_month(m, y) + d - 1) * 86400 + hh * 3600 + mm * 60;
    if i64::MIN <= t <= i64::MAX {
        Some(t as i64)
    } else {
        None
    }
}

/// The leap years among 1..=n.
pub open spec fn leaps_upto(n: int) -> int {
    n / 4 - n / 100 + n / 400
}

proof fn lemma_leaps_step(n: int)
    requires
        n >= 1,
    ensures
        leaps_upto(n) - leaps_upto(n - 1) == (if is_leap(n) {
            1int
        } else {
            0
        }),
{
    assert((n / 4 - (n - 1) / 4 == 1) == (n % 4 == 0));
    assert((n / 100 - (n - 1) / 100 == 1) == (n % 100 == 0));
    assert((n / 400 - (n - 1) / 400 == 1) == (n % 400 == 0));
    assert(0 <= n / 4 - (n - 1) / 4 <= 1);
    assert(0 <= n / 100 - (n - 1) / 100 <= 1);
    assert(0 <= n / 400 - (n - 1) / 400 <= 1);
    assert(n % 400 == 0 ==> n % 100 == 0 && n % 4 == 0);
    assert(n % 100 == 0 ==> n % 4 == 0);
}

proof fn lemma_days_before_year(y: int)
    requires
        y > 1970,
    ensures
        days_before_year(y) == 365 * (y - 1970) + leaps_upto(y - 1) - leaps_upto(1969),
    decreases y - 1970,
{
    if y > 1971 {
        lemma_days_before_year(y - 1);
    } else {
        assert(days_before_year(1970) == 0);
    }
    lemma_leaps_step(y - 1);
}

pub fn days_before_month_exec(m: i64, y: i64) -> (r: i64)
    requires
        1 <= m <= 12,
    ensures
        r == days_before_month(m as int, y as int),
        0 <= r <= 366,
{
    let leap = (y % 4 == 0 && y % 100 != 0) || y % 400 == 0;
    let mut acc: i64 = 0;
    let mut mo: i64 = 1;
    while mo < m
        invariant
            1 <= mo <= m <= 12,
            leap == is_leap(y as int),
            acc == days_before_month(mo as int, y as int),
            0 <= acc <= 31 * (mo - 1),
        decreases m - mo,
    {
        let len: i64 = if mo == 2 {
            if leap {
                29
            } else {
                28
            }
        } else if mo == 4 || mo == 6 || mo == 9 || mo == 11 {
            30
        } else {
            31
        };
        acc = acc + len;
        mo = mo + 1;
    }
    acc
}

pub fn civil_secs_exec(y: i64, m: i64, d: i64, hh: i64, mm: i64) -> (r: Option<i64>)
    requires
        1 <= m <= 12,
        1 <= d <= 31,
        hh <= 23,
        mm <= 59,
    ensures
        r == civil_secs(y as int, m as int, d as int, hh as int, mm as int),
{
    let by: i128 = if y > 1970 {
        let n = y as i128 - 1;
        proof {
            lemma_days_before_year(y as int);
        }
        365 * (y as i128 - 1970) + (n / 4 - n / 100 + n / 400) - 477
    } else {
        0
    };
    let dm = days_before_month_exec(m, y);
    let days: i128 = by + dm as i128 + d as i128 - 1;
    let t: i128 = days * 86400 + hh as i128 * 3600 + mm as i128 * 60;
    if -9223372036854775808i128 <= t && t <= 9223372036854775807i128 {
        Some(t as i64)
    } else {
        None
    }
}

/// The civil date `(year, month, day)` of a day count since 1970-01-01,
/// by the days-to-civil computation on March-based years (Rust's
/// truncating division where an operand's sign is not fixed).
pub open spec fn civil_from_days(days: int) -> (int, int, int) {
    let z = days + 719_468;
    let era = z / 146_097;
    let doe = z - era * 146_097;
    let yoe = (doe - doe / 1460 + doe / 36_524 - doe / 146_096) / 365;
    let y = yoe + era * 400;
    let doy = doe - (365 * yoe + yoe / 4 - yoe / 100);
    let mp = tdiv(5 * doy + 2, 153);
    let d = doy - tdiv(153 * mp + 2, 5) + 1;
    let m = if mp < 10 {
        mp + 3
    } else {
        mp - 9
    };
    (
        if m <= 2 {
            y + 1
        } else {
            y
        },
        m,
        d,
    )
}

/// The civil date of a day count since 1970-01-01.
pub fn civil_exec(days: i64) -> (r: (i64, i64, i64))
    requires
        -250_000_000_000_000 <= days <= 250_000_000_000_000,
    ensures
        (r.0 as int, r.1 as int, r.2 as int) == civil_from_days(days as int),
{
    let z: i64 = days + 719_468;
    let era: i64 = if z >= 0 {
        z
    } else {
        z - 146_096
    } / 146_097;
    assert(era == z / 146_097);
    let doe: i64 = z - era * 146_097;
    assert(0 <= doe < 146_097);
    let yoe: i64 = (doe - doe / 1460 + doe / 36_524 - doe / 146_096) / 365;
    assert(0 <= yoe <= 400);
    let y: i64 = yoe + era * 400;
    let doy: i64 = doe - (365 * yoe + yoe / 4 - yoe / 100);
    let mp: i64 = (5 * doy + 2) / 153;
    let d: i64 = doy - (153 * mp + 2) / 5 + 1;
    let month: i64 = if mp < 10 {
        mp + 3
    } else {
        mp - 9
    };
    let year: i64 = if month <= 2 {
        y + 1
    } else {
        y
    };
    (year, month, d)
}

/// Within a 400-year era of March-based years: the year `yoe` that the
/// days-to-civil computation gives for the era's day `doe`, and the day
/// `doy` within that year, lie in their ranges.
proof fn lemma_year_of_era(doe: int)
    requires
        0 <= doe < 146_097,
    ensures
        ({
            let yoe = (doe - doe / 1460 + doe / 36_524 - doe / 146_096) / 365;
            let doy = doe - (365 * yoe + yoe / 4 - yoe / 100);
            &&& 0 <= yoe <= 399
            &&& 0 <= doy <= 365
            &&& doy == 365 ==> is_leap(yoe + 1)
        }),
{
    if doe == 146_096 {
        assert(doe / 1460 == 100);
        assert(doe / 36_524 == 4);
        assert(doe / 146_096 == 1);
    } else {
        let c = doe / 36_524;
        let e = doe % 36_524;
        assert(0 <= c <= 3);
        assert(doe == 36_524 * c + e);
        let b = e / 1461;
        let g = e % 1461;
        assert(e == 1461 * b + g);
        assert(0 <= b <= 24);
        assert(0 <= g <= 1460);
        let t = 24 * c + b + g;
        let ind: int = if t >= 1460 {
            1
        } else {
            0
        };
        assert(doe == 1460 * (25 * c + b) + t);
        assert(doe / 1460 == 25 * c + b + ind) by {
            assert(0 <= t - 1460 * ind < 1460);
        }
        assert(doe / 36_524 == c);
        assert(doe / 146_096 == 0);
        let u = g - ind;
        assert(0 <= u <= 1459);
        let q = u / 365;
        assert(0 <= q <= 3);
        let yoe = 100 * c + 4 * b + q;
        assert(doe - doe / 1460 + doe / 36_524 - doe / 146_096 == 365 * (100 * c + 4 * b) + u);
        assert((365 * (100 * c + 4 * b) + u) / 365 == yoe) by {
            assert(u == 365 * q + u % 365);
        }
        assert(yoe / 4 == 25 * c + b);
        assert(yoe / 100 == c);
        assert(u == 365 * q + u % 365);
        if doe - (365 * yoe + yoe / 4 - yoe / 100) == 365 {
            assert(ind == 1 && g == 1460 && q == 3);
            assert(b < 24);
            assert(yoe + 1 == 4 * (25 * c + b + 1));
        }
    }
}

proof fn lemma_leaps_monotone(a: int, b: int)
    requires
        0 <= a <= b,
    ensures
        leaps_upto(a) <= leaps_upto(b),
    decreases b - a,
{
    if a < b {
        lemma_leaps_monotone(a, b - 1);
        lemma_leaps_step(b);
    }
}

proof fn lemma_days_before_year_from_1970(y: int)
    requires
        y >= 1970,
    ensures
        days_before_year(y) == 365 * (y - 1970) + leaps_upto(y - 1) - 477,
{
    if y > 1970 {
        lemma_days_before_year(y);
    }
    assert(leaps_upto(1969) == 477);
}

/// The days before month `m` of year `y`, for the month `m` that March-based
/// month index `mp` names: March to December count from the end of
/// February, January and February from the start of the year.
proof fn lemma_days_before_month_of_index(mp: int, y: int)
    requires
        0 <= mp <= 11,
    ensures
        mp < 10 ==> days_before_month(mp + 3, y) == 59 + (if is_leap(y) {
            1int
        } else {
            0
        }) + (153 * mp + 2) / 5,
        mp >= 10 ==> days_before_month(mp - 9, y) == (153 * mp + 2) / 5 - 306,
{
    reveal_with_fuel(days_before_month, 13);
}

/// The length of the month that March-based month index `mp` names, for
/// March to January: the step between the month starts the computation
/// uses.
proof fn lemma_month_length(mp: int, y: int)
    requires
        0 <= mp <= 11,
    ensures
        mp < 10 ==> month_days(mp + 3, y) == (153 * (mp + 1) + 2) / 5 - (153 * mp + 2) / 5,
        mp == 10 ==> month_days(1, y) == (153 * (mp + 1) + 2) / 5 - (153 * mp + 2) / 5,
{
}

/// A day count since 1970-01-01 that is not negative names, through its
/// civil date, a valid date and that same day: the days before its year,
/// before its month and within its month add up to it again, and midnight
/// of that date is the day's first second.
pub proof fn law_civil_date_names_its_day(days: int)
    requires
        days >= 0,
    ensures
        ({
            let (y, m, d) = civil_from_days(days);
            &&& 1 <= m <= 12
            &&& 1 <= d <= month_days(m, y)
            &&& days_before_year(y) + days_before_month(m, y) + d - 1 == days
            &&& days * 86400 <= i64::MAX ==> civil_secs(y, m, d, 0, 0) == Some(
                (days * 86400) as i64,
            )
        }),
{
    let z = days + 719_468;
    let era = z / 146_097;
    let doe = z - era * 146_097;
    assert(0 <= era);
    assert(0 <= doe < 146_097);
    lemma_year_of_era(doe);
    let yoe = (doe - doe / 1460 + doe / 36_524 - doe / 146_096) / 365;
    let ym = yoe + era * 400;
    let doy = doe - (365 * yoe + yoe / 4 - yoe / 100);
    assert(0 <= doy <= 365);
    let mp = (5 * doy + 2) / 153;
    assert(tdiv(5 * doy + 2, 153) == mp);
    assert(0 <= mp <= 11);
    assert(tdiv(153 * mp + 2, 5) == (153 * mp + 2) / 5);
    assert((153 * mp + 2) / 5 <= doy);
    assert(doy - (153 * mp + 2) / 5 <= 30);
    assert(ym / 4 == 100 * era + yoe / 4);
    assert(ym / 100 == 4 * era + yoe / 100);
    assert(ym / 400 == era);
    assert(days == 365 * ym + leaps_upto(ym) - 719_468 + doy);
    lemma_days_before_month_of_index(mp, ym);
    lemma_days_before_month_of_index(mp, ym + 1);
    lemma_month_length(mp, ym);
    assert(is_leap(ym + 1) == is_leap(yoe + 1)) by {
        assert((ym + 1) % 4 == (yoe + 1) % 4);
        assert((ym + 1) % 100 == (yoe + 1) % 100);
        assert((ym + 1) % 400 == (yoe + 1) % 400);
    }
    if mp < 10 {
        assert(doy <= 305);
        if ym < 1970 {
            lemma_leaps_monotone(ym, 1969);
            assert(false);
        }
        lemma_days_before_year_from_1970(ym);
        lemma_leaps_step(ym);
    } else {
        if ym < 1969 {
            lemma_leaps_monotone(ym, 1968);
            assert(false);
        }
        lemma_days_before_year_from_1970(ym + 1);
    }
}

} // verus!
