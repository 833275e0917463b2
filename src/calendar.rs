//! Dates, times and timestamps of the transfer buffer as the counts the columnar file stores.
use vstd::prelude::*;

verus! {

pub open spec fn is_leap_year(y: int) -> bool {
    (y % 4 == 0 && y % 100 != 0) || y % 400 == 0
}

pub open spec fn year_len(y: int) -> int {
    if is_leap_year(y) {
        366
    } else {
        365
    }
}

pub open spec fn month_len(y: int, m: int) -> int {
    if m == 2 {
        if is_leap_year(y) {
            29
        } else {
            28
        }
    } else if m == 4 || m == 6 || m == 9 || m == 11 {
        30
    } else {
        31
    }
}

/// Days from 1970-01-01 to the first of January of year `y`, negative before 1970.
pub open spec fn days_before_year(y: int) -> int
    decreases (if y >= 1970 { y - 1970 } else { 1970 - y }),
{
    if y == 1970 {
        0
    } else if y > 1970 {
        days_before_year(y - 1) + year_len(y - 1)
    } else {
        days_before_year(y + 1) - year_len(y)
    }
}

/// Days from the first of January to the first of month `m` in year `y`.
pub open spec fn days_before_month(y: int, m: int) -> int
    decreases m,
{
    if m <= 1 {
        0
    } else {
        days_before_month(y, m - 1) + month_len(y, m - 1)
    }
}

/// Days from 1970-01-01 to the given date of the proleptic Gregorian calendar.
pub open spec fn day_number(y: int, m: int, d: int) -> int {
    days_before_year(y) + days_before_month(y, m) + d - 1
}

fn is_leap_year_exec(y: i32) -> (r: bool)
    ensures
        r == is_leap_year(y as int),
{
    (y % 4 == 0 && y % 100 != 0) || y % 400 == 0
}

fn year_len_exec(y: i32) -> (r: i32)
    ensures
        r == year_len(y as int),
{
    if is_leap_year_exec(y) {
        366
    } else {
        365
    }
}

proof fn lemma_days_before_year_bound(y: int)
    ensures
        -366 * (if y >= 1970 { y - 1970 } else { 1970 - y }) <= days_before_year(y) <= 366 * (
        if y >= 1970 {
            y - 1970
        } else {
            1970 - y
        }),
    decreases (if y >= 1970 { y - 1970 } else { 1970 - y }),
{
    if y > 1970 {
        lemma_days_before_year_bound(y - 1);
    } else if y < 1970 {
        lemma_days_before_year_bound(y + 1);
    }
}

proof fn lemma_days_before_month_bound(y: int, m: int)
    ensures
        0 <= days_before_month(y, m) <= 31 * (if m >= 1 { m - 1 } else { 0 }),
    decreases m,
{
    if m > 1 {
        lemma_days_before_month_bound(y, m - 1);
    }
}

/// Days from 1970-01-01 to the given date; the month counts from one.
pub fn days_since_epoch(year: i16, month: u16, day: u16) -> (r: i32)
    requires
        1 <= month <= 12,
    ensures
        r == day_number(year as int, month as int, day as int),
{
    let y = year as i32;
    let mut days: i32 = 0;
    let mut cur: i32 = 1970;
    if y >= 1970 {
        while cur < y
            invariant
                1970 <= cur <= y,
                y == year as int,
                days == days_before_year(cur as int),
            decreases y - cur,
        {
            proof {
                lemma_days_before_year_bound(cur + 1);
            }
            days = days + if is_leap_year_exec(cur) { 366 } else { 365 };
            cur = cur + 1;
        }
    } else {
        while cur > y
            invariant
                y <= cur <= 1970,
                y == year as int,
                days == days_before_year(cur as int),
            decreases cur - y,
        {
            proof {
                lemma_days_before_year_bound(cur - 1);
            }
            days = days - if is_leap_year_exec(cur - 1) { 366 } else { 365 };
            cur = cur - 1;
        }
    }
    let leap = is_leap_year_exec(y);
    let mut m: u16 = 1;
    let mut in_year: i32 = 0;
    while m < month
        invariant
            1 <= m <= month <= 12,
            leap == is_leap_year(y as int),
            in_year == days_before_month(y as int, m as int),
            0 <= in_year <= 31 * (m - 1),
        decreases month - m,
    {
        let len: i32 = if m == 2 {
            if leap { 29 } else { 28 }
        } else if m == 4 || m == 6 || m == 9 || m == 11 {
            30
        } else {
            31
        };
        in_year = in_year + len;
        m = m + 1;
    }
    proof {
        lemma_days_before_year_bound(y as int);
    }
    days + in_year + day as i32 - 1
}

/// Microseconds per second.
pub const MICROS_PER_SECOND: i64 = 1000000;

/// Microseconds since midnight of a time of day.
pub fn micros_since_midnight(hour: u16, minute: u16, second: u16) -> (r: i64)
    ensures
        r == ((hour as int * 60 + minute as int) * 60 + second as int) * MICROS_PER_SECOND,
{
    ((hour as i64 * 60 + minute as i64) * 60 + second as i64) * MICROS_PER_SECOND
}

/// Microseconds since 1970-01-01 00:00:00 of a timestamp. The fraction is in nanoseconds and
/// truncated to whole microseconds.
pub fn timestamp_micros(
    year: i16,
    month: u16,
    day: u16,
    hour: u16,
    minute: u16,
    second: u16,
    fraction: u32,
) -> (r: i64)
    requires
        1 <= month <= 12,
    ensures
        r == (day_number(year as int, month as int, day as int) * 86400 + (hour as int * 60
            + minute as int) * 60 + second as int) * MICROS_PER_SECOND + fraction as int / 1000,
{
    let days = days_since_epoch(year, month, day);
    proof {
        lemma_days_before_year_bound(year as int);
        lemma_days_before_month_bound(year as int, month as int);
    }
    let seconds: i64 = days as i64 * 86400 + (hour as i64 * 60 + minute as i64) * 60
        + second as i64;
    seconds * MICROS_PER_SECOND + (fraction / 1000) as i64
}

/// `(y, m, d)` is a date of the proleptic Gregorian calendar, `days` days after 1970-01-01.
pub open spec fn is_date_of(days: int, y: int, m: int, d: int) -> bool {
    1 <= m <= 12 && 1 <= d <= month_len(y, m) && day_number(y, m, d) == days
}

proof fn lemma_year_is_its_months(y: int)
    ensures
        days_before_month(y, 13) == year_len(y),
{
    reveal_with_fuel(days_before_month, 13);
}

proof fn lemma_days_before_month_step(y: int, m: int)
    requires
        1 <= m,
    ensures
        days_before_month(y, m + 1) == days_before_month(y, m) + month_len(y, m),
{
}

/// The date `days` days after 1970-01-01, as year, month (from one) and day (from one).
pub fn date_from_days(days: i32) -> (r: (i32, u16, u16))
    ensures
        is_date_of(days as int, r.0 as int, r.1 as int, r.2 as int),
{
    let mut y: i32 = 1970;
    let mut rem: i32 = days;
    if rem >= 0 {
        while rem >= year_len_exec(y)
            invariant
                rem >= 0,
                y >= 1970,
                365 * (y - 1970) <= days - rem,
                days_before_year(y as int) + rem == days,
            decreases rem,
        {
            rem = rem - year_len_exec(y);
            y = y + 1;
        }
    } else {
        while rem < 0
            invariant
                y <= 1970,
                365 * (1970 - y) <= rem - days,
                rem < 366,
                days_before_year(y as int) + rem == days,
                rem >= 0 ==> rem < year_len(y as int),
            decreases 366 - rem,
        {
            y = y - 1;
            let len = year_len_exec(y);
            assert(len >= 365);
            rem = rem + len;
        }
    }
    assert(0 <= rem < year_len(y as int));
    proof {
        lemma_year_is_its_months(y as int);
    }
    let leap = is_leap_year_exec(y);
    let mut m: u16 = 1;
    while rem >= month_len_exec(leap, m)
        invariant
            1 <= m <= 12,
            leap == is_leap_year(y as int),
            0 <= rem,
            days_before_year(y as int) + days_before_month(y as int, m as int) + rem == days,
            days_before_month(y as int, m as int) + rem < year_len(y as int),
            days_before_month(y as int, 13) == year_len(y as int),
        decreases 12 - m,
    {
        proof {
            lemma_days_before_month_step(y as int, m as int);
        }
        rem = rem - month_len_exec(leap, m);
        m = m + 1;
    }
    (y, m, (rem + 1) as u16)
}

fn month_len_exec(leap: bool, m: u16) -> (r: i32)
    requires
        1 <= m <= 12,
    ensures
        forall|y: int| is_leap_year(y) == leap ==> r == month_len(y, m as int),
{
    if m == 2 {
        if leap {
            29
        } else {
            28
        }
    } else if m == 4 || m == 6 || m == 9 || m == 11 {
        30
    } else {
        31
    }
}

/// Microseconds per day.
pub const MICROS_PER_DAY: i64 = 86400000000;

/// The timestamp `micros` microseconds after 1970-01-01 00:00:00: its date, hour, minute,
/// second and fraction of a second in nanoseconds.
pub fn timestamp_from_micros(micros: i64) -> (r: ((i32, u16, u16), u16, u16, u16, u32))
    ensures
        ({
            let ((y, mo, d), h, mi, s, nanos) = r;
            &&& is_date_of(micros as int / MICROS_PER_DAY as int, y as int, mo as int, d as int)
            &&& h < 24 && mi < 60 && s < 60 && nanos < 1000000000 && nanos % 1000 == 0
            &&& (micros as int / MICROS_PER_DAY as int) * MICROS_PER_DAY + ((h * 60 + mi) * 60
                + s) * MICROS_PER_SECOND + nanos / 1000 == micros
        }),
{
    let ghost floor_days = micros as int / MICROS_PER_DAY as int;
    let (days, in_day): (i64, i64) = if micros >= 0 {
        (micros / MICROS_PER_DAY, micros % MICROS_PER_DAY)
    } else {
        let back: i64 = 0 - (micros + 1);
        (0 - back / MICROS_PER_DAY - 1, MICROS_PER_DAY - 1 - back % MICROS_PER_DAY)
    };
    proof {
        let q = (-(micros + 1)) / MICROS_PER_DAY as int;
        let r = (-(micros + 1)) % MICROS_PER_DAY as int;
        if micros < 0 {
            assert(-(micros + 1) == q * MICROS_PER_DAY + r && 0 <= r < MICROS_PER_DAY);
            assert(micros == (-q - 1) * MICROS_PER_DAY + (MICROS_PER_DAY - 1 - r))
                by (nonlinear_arith)
                requires
                    -(micros + 1) == q * MICROS_PER_DAY + r,
            ;
            vstd::arithmetic::div_mod::lemma_fundamental_div_mod_converse(
                micros as int,
                MICROS_PER_DAY as int,
                -q - 1,
                MICROS_PER_DAY - 1 - r,
            );
        }
    }
    assert(days == floor_days && in_day == micros - floor_days * MICROS_PER_DAY && 0 <= in_day
        < MICROS_PER_DAY);
    let date = date_from_days(days as i32);
    let seconds: i64 = in_day / MICROS_PER_SECOND;
    let sub: i64 = in_day % MICROS_PER_SECOND;
    let h = (seconds / 3600) as u16;
    let mi = ((seconds % 3600) / 60) as u16;
    let s = (seconds % 60) as u16;
    (date, h, mi, s, (sub * 1000) as u32)
}

} // verus!
