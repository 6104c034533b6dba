//! The date of Easter Sunday.

use crate::date::{
    day_number, days_before_month, days_before_year, is_date, lemma_days_before_month,
    weekday_of_day, Date, Weekday, MAX_YEAR, MIN_YEAR,
};
use vstd::prelude::*;

verus! {

/// The number of days from 22 March to Easter Sunday of `year`, by the
/// anonymous Gregorian computus: `a` places the year in the 19-year cycle of
/// the moon, `b` to `g` correct for the centuries and their leap years, `h`
/// leads to the Paschal full moon, `l` from there to the Sunday, and `m`
/// takes a week off the two latest dates.
///
/// Quotients are rounded down and remainders are never negative, so the rule
/// is the same before year 0 as after it.
#[verifier::opaque]
pub open spec fn easter_offset(year: int) -> int {
    let a = year % 19;
    let b = year / 100;
    let c = year % 100;
    let d = b / 4;
    let e = b % 4;
    let f = (b + 8) / 25;
    let g = (b - f + 1) / 3;
    let h = (19 * a + b - d - g + 15) % 30;
    let i = c / 4;
    let k = c % 4;
    let l = (32 + 2 * e + 2 * i - h - k) % 7;
    let m = (a + 11 * h + 22 * l) / 451;
    h + l - 7 * m
}

/// The month of Easter Sunday of `year`: 3 or 4.
pub open spec fn easter_month(year: int) -> int {
    (easter_offset(year) + 114) / 31
}

/// The day of the month of Easter Sunday of `year`.
pub open spec fn easter_day(year: int) -> int {
    (easter_offset(year) + 114) % 31 + 1
}

/// Easter Sunday of `year`.
pub open spec fn easter_date(year: int) -> Date {
    Date { year: year as i32, month: easter_month(year) as u32, day: easter_day(year) as u32 }
}

/// Easter falls on a day from 22 March to 25 April.
pub proof fn lemma_easter_range(year: int)
    ensures
        0 <= easter_offset(year) <= 34,
        easter_month(year) == 3 || easter_month(year) == 4,
        easter_month(year) == 3 ==> easter_day(year) == 22 + easter_offset(year),
        easter_month(year) == 4 ==> easter_day(year) == easter_offset(year) - 9,
        MIN_YEAR <= year <= MAX_YEAR ==> is_date(year, easter_month(year), easter_day(year)),
{
    reveal(easter_offset);
}

/// The days before 1 March of `year`, counted through the leap years up to
/// and with `year` itself.
proof fn lemma_days_before_march(year: int)
    ensures
        days_before_year(year) + days_before_month(year, 3) == 365 * (year - 1) + year / 4 - year
            / 100 + year / 400 + 59,
{
    lemma_days_before_month(year, 3);
}

/// A year taken apart into its 400-year cycles `d`, the centuries `e` left
/// over, the 4-year cycles `i` of the century and the years `k` left over.
proof fn lemma_year_parts(year: int)
    ensures
        ({
            let b = year / 100;
            let c = year % 100;
            let d = b / 4;
            let e = b % 4;
            let i = c / 4;
            let k = c % 4;
            &&& year == 400 * d + 100 * e + 4 * i + k
            &&& year / 4 == 100 * d + 25 * e + i
            &&& year / 100 == 4 * d + e
            &&& year / 400 == d
        }),
{
}

/// A day number made up as that of Easter is, with `l` chosen to fill the
/// week, is a multiple of 7.
proof fn lemma_week_filled(n: int, d: int, e: int, i: int, k: int, h: int, l: int, m: int)
    requires
        l == (32 + 2 * e + 2 * i - h - k) % 7,
        n == 365 * (400 * d + 100 * e + 4 * i + k - 1) + (100 * d + 25 * e + i) - (4 * d + e) + d
            + 59 + 22 + h + l - 7 * m,
    ensures
        n % 7 == 0,
{
    let t = 32 + 2 * e + 2 * i - h - k;
    let q = t / 7;
    assert(t == 7 * q + l);
    assert(n == 7 * (20871 * d + 5218 * e + 209 * i + 52 * k - q - m - 36));
}

/// Easter falls on a Sunday.
pub proof fn lemma_easter_is_sunday(year: int)
    ensures
        weekday_of_day(day_number(year, easter_month(year), easter_day(year))) == Weekday::Sunday,
{
    lemma_easter_range(year);
    lemma_days_before_month(year, easter_month(year));
    lemma_days_before_march(year);
    lemma_year_parts(year);
    let a = year % 19;
    let b = year / 100;
    let c = year % 100;
    let d = b / 4;
    let e = b % 4;
    let f = (b + 8) / 25;
    let g = (b - f + 1) / 3;
    let h = (19 * a + b - d - g + 15) % 30;
    let i = c / 4;
    let k = c % 4;
    let l = (32 + 2 * e + 2 * i - h - k) % 7;
    let m = (a + 11 * h + 22 * l) / 451;
    let n = day_number(year, easter_month(year), easter_day(year));
    assert(n == days_before_year(year) + days_before_month(year, 3) + 22 + easter_offset(year));
    assert(easter_offset(year) == h + l - 7 * m) by {
        reveal(easter_offset);
    }
    lemma_week_filled(n, d, e, i, k, h, l, m);
}

/// The quotient of `x` by `d`, rounded down.
fn floor_div(x: i32, d: i32) -> (q: i32)
    requires
        d > 0,
    ensures
        q == x / d,
{
    assert(i32::MIN <= x / d <= i32::MAX) by (nonlinear_arith)
        requires
            d > 0,
            i32::MIN <= x <= i32::MAX,
    ;
    x.checked_div_euclid(d).unwrap()
}

/// The remainder of `x` by `d`, never negative.
fn floor_mod(x: i32, d: i32) -> (r: i32)
    requires
        d > 0,
    ensures
        r == x % d,
        0 <= r < d,
{
    assert(0 <= x % d < d) by (nonlinear_arith)
        requires
            d > 0,
    ;
    x.checked_rem_euclid(d).unwrap()
}

/// Easter Sunday of `year`.
pub fn easter(year: i32) -> (date: Date)
    requires
        MIN_YEAR <= year <= MAX_YEAR,
    ensures
        date == easter_date(year as int),
        date.wf(),
        date.weekday() == Weekday::Sunday,
        date.month == 3 && date.day >= 22 || date.month == 4 && date.day <= 25,
{
    proof {
        reveal(easter_offset);
        lemma_easter_range(year as int);
        lemma_easter_is_sunday(year as int);
    }
    let a: i32 = floor_mod(year, 19);
    let b: i32 = floor_div(year, 100);
    let c: i32 = floor_mod(year, 100);
    let d: i32 = floor_div(b, 4);
    let e: i32 = floor_mod(b, 4);
    let f: i32 = floor_div(b + 8, 25);
    let g: i32 = floor_div(b - f + 1, 3);
    let h: i32 = floor_mod(19 * a + b - d - g + 15, 30);
    let i: i32 = floor_div(c, 4);
    let k: i32 = floor_mod(c, 4);
    let l: i32 = floor_mod(32 + 2 * e + 2 * i - h - k, 7);
    let m: i32 = floor_div(a + 11 * h + 22 * l, 451);
    let n: i32 = h + l - 7 * m + 114;
    let month: i32 = floor_div(n, 31);
    let day: i32 = floor_mod(n, 31) + 1;
    Date { year, month: month as u32, day: day as u32 }
}

} // verus!
