//! Day arithmetic on dates, done by the `chrono` crate.
//!
//! The functions of this module convert a [`Date`] to a `chrono::NaiveDate`,
//! ask chrono, and convert the answer back. Their contracts are stated over
//! the day numbers of the proleptic Gregorian calendar and are taken on trust:
//! they say what chrono documents, and nothing here proves it of chrono's code.

use crate::date::{
    day_number, days_before_month, days_before_year, is_leap_year, lemma_day_within_year,
    lemma_days_before_month, lemma_year_length, lemma_years_in_order, Date, Weekday, MAX_YEAR,
    MIN_YEAR,
};
use crate::text::{four_digits, two_digits};
use chrono::Datelike;
use vstd::prelude::*;

verus! {

/// Whether `n` is the day number of a day of the calendar.
pub open spec fn is_day_number(n: int) -> bool {
    day_number(MIN_YEAR as int, 1, 1) <= n <= day_number(MAX_YEAR as int, 12, 31)
}

/// The day numbers of the calendar's dates lie between those of its first
/// and its last day.
pub proof fn lemma_day_number_in_range(d: Date)
    requires
        d.wf(),
    ensures
        is_day_number(d.day_number()),
{
    lemma_day_within_year(d);
    lemma_years_in_order(MIN_YEAR as int, d.year as int);
    lemma_years_in_order(d.year + 1, MAX_YEAR + 1);
    lemma_days_before_month(MIN_YEAR as int, 1);
    let last = Date { year: MAX_YEAR, month: 12, day: 31 };
    lemma_day_within_year(last);
    lemma_days_before_month(MAX_YEAR as int, 12);
    lemma_year_length(MAX_YEAR as int);
}

/// The year that the day with number `n` lies in, sought from `low` upwards.
proof fn lemma_year_of_day(n: int, low: int, high: int) -> (year: int)
    requires
        low <= high,
        days_before_year(low) < n <= days_before_year(high + 1),
    ensures
        low <= year <= high,
        days_before_year(year) < n <= days_before_year(year + 1),
    decreases high - low,
{
    if n <= days_before_year(low + 1) {
        low
    } else {
        lemma_year_of_day(n, low + 1, high)
    }
}

/// Every day number of the calendar is that of a date: the days run on
/// without a gap from the first date to the last. With
/// [`lemma_date_order`](crate::date::lemma_date_order) this makes the date a
/// given number of days away from another one determined, where it exists.
pub proof fn lemma_date_of_day(n: int) -> (date: Date)
    requires
        is_day_number(n),
    ensures
        date.wf(),
        date.day_number() == n,
{
    lemma_days_before_month(MIN_YEAR as int, 1);
    lemma_days_before_month(MAX_YEAR as int, 12);
    lemma_year_length(MAX_YEAR as int);
    let year = lemma_year_of_day(n, MIN_YEAR as int, MAX_YEAR as int);
    lemma_year_length(year);
    let leap: int = if is_leap_year(year) {
        1
    } else {
        0
    };
    let rest = n - days_before_year(year);
    let month: int = if rest <= 31 {
        1
    } else if rest <= 59 + leap {
        2
    } else if rest <= 90 + leap {
        3
    } else if rest <= 120 + leap {
        4
    } else if rest <= 151 + leap {
        5
    } else if rest <= 181 + leap {
        6
    } else if rest <= 212 + leap {
        7
    } else if rest <= 243 + leap {
        8
    } else if rest <= 273 + leap {
        9
    } else if rest <= 304 + leap {
        10
    } else if rest <= 334 + leap {
        11
    } else {
        12
    };
    lemma_days_before_month(year, month);
    let day = rest - days_before_month(year, month);
    Date { year: year as i32, month: month as u32, day: day as u32 }
}

/// The English name of a month (1 to 12).
pub open spec fn month_name(month: int) -> Seq<char> {
    if month == 1 {
        "January"@
    } else if month == 2 {
        "February"@
    } else if month == 3 {
        "March"@
    } else if month == 4 {
        "April"@
    } else if month == 5 {
        "May"@
    } else if month == 6 {
        "June"@
    } else if month == 7 {
        "July"@
    } else if month == 8 {
        "August"@
    } else if month == 9 {
        "September"@
    } else if month == 10 {
        "October"@
    } else if month == 11 {
        "November"@
    } else {
        "December"@
    }
}

/// A date as the name of its month, a space and the day in two digits.
pub open spec fn month_day_text(date: Date) -> Seq<char> {
    month_name(date.month as int) + " "@ + two_digits(date.day as nat)
}

/// A date in the ISO 8601 form: year, month and day, joined by hyphens. The
/// year has four digits; a year before 0 or after 9999 has a sign and at
/// least four digits.
pub open spec fn iso_date_text(date: Date) -> Seq<char> {
    let year = if 0 <= date.year <= 9999 {
        four_digits(date.year as nat)
    } else if date.year < 0 {
        "-"@ + four_digits((-date.year) as nat)
    } else {
        "+"@ + four_digits(date.year as nat)
    };
    year + "-"@ + two_digits(date.month as nat) + "-"@ + two_digits(date.day as nat)
}

/// The day of the week of `date`, from `NaiveDate::weekday`.
///
/// Trusted: chrono's weekday is that of the proleptic Gregorian calendar, in
/// which day 1 (1 January of year 1) is a Monday.
#[verifier::external_body]
pub(crate) fn weekday_of(date: Date) -> (w: Weekday)
    requires
        date.wf(),
    ensures
        w == date.weekday(),
{
    match chrono::NaiveDate::from_ymd_opt(date.year, date.month, date.day).unwrap().weekday() {
        chrono::Weekday::Sun => Weekday::Sunday,
        chrono::Weekday::Mon => Weekday::Monday,
        chrono::Weekday::Tue => Weekday::Tuesday,
        chrono::Weekday::Wed => Weekday::Wednesday,
        chrono::Weekday::Thu => Weekday::Thursday,
        chrono::Weekday::Fri => Weekday::Friday,
        chrono::Weekday::Sat => Weekday::Saturday,
    }
}

/// The number of days from `earlier` to `later`, negative if `later` is the
/// earlier day: `NaiveDate::signed_duration_since`, in whole days.
///
/// Trusted: chrono counts the days of the proleptic Gregorian calendar
/// between the two dates.
#[verifier::external_body]
pub(crate) fn days_between(later: Date, earlier: Date) -> (n: i64)
    requires
        later.wf(),
        earlier.wf(),
    ensures
        n == later.day_number() - earlier.day_number(),
{
    let a = chrono::NaiveDate::from_ymd_opt(later.year, later.month, later.day).unwrap();
    let b = chrono::NaiveDate::from_ymd_opt(earlier.year, earlier.month, earlier.day).unwrap();
    a.signed_duration_since(b).num_days()
}

/// The date `days` days after `date`, or before it if `days` is negative:
/// `NaiveDate + Duration::days(days)`.
///
/// Trusted: chrono returns the date of the calendar that lies that many days
/// away. The sum fails outside chrono's range of years, which `requires`
/// leaves out.
#[verifier::external_body]
pub(crate) fn add_days(date: Date, days: i64) -> (r: Date)
    requires
        date.wf(),
        is_day_number(date.day_number() + days),
    ensures
        r.wf(),
        r.day_number() == date.day_number() + days,
{
    let d = chrono::NaiveDate::from_ymd_opt(date.year, date.month, date.day).unwrap()
        + chrono::Duration::days(days);
    Date { year: d.year(), month: d.month(), day: d.day() }
}

/// `date` as the name of its month and the day in two digits:
/// `NaiveDate::format` with the pattern `%B %d`.
///
/// Trusted: `%B` is the full English month name and `%d` the day of the
/// month, padded with a zero to two digits.
#[verifier::external_body]
pub(crate) fn format_month_day(date: Date) -> (s: String)
    requires
        date.wf(),
    ensures
        s@ == month_day_text(date),
{
    chrono::NaiveDate::from_ymd_opt(date.year, date.month, date.day).unwrap().format(
        "%B %d",
    ).to_string()
}

/// `date` in the ISO 8601 form, as `NaiveDate` displays itself.
///
/// Trusted: chrono writes the year in four digits, or with a sign and at
/// least four digits outside 0 to 9999, then month and day in two digits
/// each, joined by hyphens.
#[verifier::external_body]
pub(crate) fn format_iso(date: Date) -> (s: String)
    requires
        date.wf(),
    ensures
        s@ == iso_date_text(date),
{
    chrono::NaiveDate::from_ymd_opt(date.year, date.month, date.day).unwrap().to_string()
}

} // verus!
