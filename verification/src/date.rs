//! Calendar dates of the proleptic Gregorian calendar and their day numbers.

use vstd::prelude::*;

verus! {

/// The earliest year a [`Date`] can lie in.
pub const MIN_YEAR: i32 = -262143;

/// The latest year a [`Date`] can lie in.
pub const MAX_YEAR: i32 = 262142;

/// Whether `year` has a 29th of February.
pub open spec fn is_leap_year(year: int) -> bool {
    year % 4 == 0 && (year % 100 != 0 || year % 400 == 0)
}

/// The number of days of `month` (1 to 12) in `year`.
pub open spec fn days_in_month(year: int, month: int) -> int {
    if month == 2 {
        if is_leap_year(year) {
            29
        } else {
            28
        }
    } else if month == 4 || month == 6 || month == 9 || month == 11 {
        30
    } else {
        31
    }
}

/// The number of days of `year` that lie before the first of `month`.
pub open spec fn days_before_month(year: int, month: int) -> int
    decreases month,
{
    if month <= 1 {
        0
    } else {
        days_before_month(year, month - 1) + days_in_month(year, month - 1)
    }
}

/// The number of days from 1 January of year 1 up to, and without, 1 January
/// of `year`; negative for the years before year 1.
pub open spec fn days_before_year(year: int) -> int {
    365 * (year - 1) + (year - 1) / 4 - (year - 1) / 100 + (year - 1) / 400
}

/// Whether year, month and day name a day of the calendar.
pub open spec fn is_date(year: int, month: int, day: int) -> bool {
    &&& MIN_YEAR <= year <= MAX_YEAR
    &&& 1 <= month <= 12
    &&& 1 <= day <= days_in_month(year, month)
}

/// The day number of a calendar day: 1 January of year 1 is day 1.
pub open spec fn day_number(year: int, month: int, day: int) -> int {
    days_before_year(year) + days_before_month(year, month) + day
}

/// A day of the week.
#[derive(Clone, Copy, Debug, PartialEq, Eq, Structural)]
pub enum Weekday {
    Sunday,
    Monday,
    Tuesday,
    Wednesday,
    Thursday,
    Friday,
    Saturday,
}

/// The day of the week of the day with number `n`.
pub open spec fn weekday_of_day(n: int) -> Weekday {
    let r = n % 7;
    if r == 0 {
        Weekday::Sunday
    } else if r == 1 {
        Weekday::Monday
    } else if r == 2 {
        Weekday::Tuesday
    } else if r == 3 {
        Weekday::Wednesday
    } else if r == 4 {
        Weekday::Thursday
    } else if r == 5 {
        Weekday::Friday
    } else {
        Weekday::Saturday
    }
}

impl Weekday {
    /// The number of the day, counted from Sunday as 0 to Saturday as 6.
    pub open spec fn index(self) -> int {
        match self {
            Weekday::Sunday => 0,
            Weekday::Monday => 1,
            Weekday::Tuesday => 2,
            Weekday::Wednesday => 3,
            Weekday::Thursday => 4,
            Weekday::Friday => 5,
            Weekday::Saturday => 6,
        }
    }

    /// The number of the day, counted from Sunday as 0 to Saturday as 6.
    pub fn number(self) -> (n: u8)
        ensures
            n == self.index(),
    {
        match self {
            Weekday::Sunday => 0,
            Weekday::Monday => 1,
            Weekday::Tuesday => 2,
            Weekday::Wednesday => 3,
            Weekday::Thursday => 4,
            Weekday::Friday => 5,
            Weekday::Saturday => 6,
        }
    }
}

/// A calendar date: year, month and day, without a time of day.
#[derive(Clone, Copy, Debug, PartialEq, Eq, Structural)]
pub struct Date {
    pub year: i32,
    pub month: u32,
    pub day: u32,
}

impl Date {
    /// The date names a day of the calendar.
    pub open spec fn wf(self) -> bool {
        is_date(self.year as int, self.month as int, self.day as int)
    }

    /// The day number of the date: 1 January of year 1 is day 1.
    pub open spec fn day_number(self) -> int {
        day_number(self.year as int, self.month as int, self.day as int)
    }

    /// The day of the week the date falls on.
    pub open spec fn weekday(self) -> Weekday {
        weekday_of_day(self.day_number())
    }

    /// Whether the date comes before `other`, going by year, then month, then day.
    pub open spec fn precedes(self, other: Date) -> bool {
        ||| self.year < other.year
        ||| self.year == other.year && self.month < other.month
        ||| self.year == other.year && self.month == other.month && self.day < other.day
    }

    /// The date of the given year, month and day, if the calendar has such a day.
    pub fn new(year: i32, month: u32, day: u32) -> (r: Option<Date>)
        ensures
            r is Some <==> is_date(year as int, month as int, day as int),
            r is Some ==> r->0 == (Date { year, month, day }),
    {
        if year < MIN_YEAR || year > MAX_YEAR || month < 1 || month > 12 || day < 1 {
            return None;
        }
        if day > month_length(year, month) {
            return None;
        }
        Some(Date { year, month, day })
    }

    /// Whether the date is an earlier day than `other`.
    pub fn is_before(&self, other: &Date) -> (r: bool)
        requires
            self.wf(),
            other.wf(),
        ensures
            r == (self.day_number() < other.day_number()),
    {
        proof {
            lemma_date_order(*self, *other);
        }
        self.year < other.year || (self.year == other.year && (self.month < other.month
            || (self.month == other.month && self.day < other.day)))
    }

    /// Whether the date is the same day as `other`.
    pub fn is_same_day(&self, other: &Date) -> (r: bool)
        requires
            self.wf(),
            other.wf(),
        ensures
            r == (self.day_number() == other.day_number()),
            r == (*self == *other),
    {
        proof {
            lemma_date_order(*self, *other);
        }
        self.year == other.year && self.month == other.month && self.day == other.day
    }

    /// Whether the date is `other` or an earlier day.
    pub fn is_on_or_before(&self, other: &Date) -> (r: bool)
        requires
            self.wf(),
            other.wf(),
        ensures
            r == (self.day_number() <= other.day_number()),
    {
        !other.is_before(self)
    }
}

/// Whether `year` has a 29th of February.
pub fn leap_year(year: i32) -> (r: bool)
    ensures
        r == is_leap_year(year as int),
{
    year % 4 == 0 && (year % 100 != 0 || year % 400 == 0)
}

/// The number of days of `month` in `year`.
pub fn month_length(year: i32, month: u32) -> (n: u32)
    requires
        1 <= month <= 12,
    ensures
        n == days_in_month(year as int, month as int),
{
    if month == 2 {
        if leap_year(year) {
            29
        } else {
            28
        }
    } else if month == 4 || month == 6 || month == 9 || month == 11 {
        30
    } else {
        31
    }
}

/// The days before each month, written out: the sum of the lengths of the
/// months before it.
pub proof fn lemma_days_before_month(year: int, month: int)
    requires
        1 <= month <= 12,
    ensures
        days_before_month(year, month) == (if month == 1 {
            0int
        } else if month == 2 {
            31
        } else if month == 3 {
            59
        } else if month == 4 {
            90
        } else if month == 5 {
            120
        } else if month == 6 {
            151
        } else if month == 7 {
            181
        } else if month == 8 {
            212
        } else if month == 9 {
            243
        } else if month == 10 {
            273
        } else if month == 11 {
            304
        } else {
            334
        }) + (if month > 2 && is_leap_year(year) {
            1int
        } else {
            0
        }),
        days_before_month(year, month) + days_in_month(year, month) <= 365 + (if is_leap_year(
            year,
        ) {
            1int
        } else {
            0
        }),
{
    reveal_with_fuel(days_before_month, 13);
}

/// Going on by one, the quotient by `d` grows at the multiples of `d` only.
proof fn lemma_quotient_step(x: int, d: int)
    requires
        d == 4 || d == 100 || d == 400,
    ensures
        x / d - (x - 1) / d == (if x % d == 0 {
            1int
        } else {
            0
        }),
{
}

/// A year is 365 days long, and 366 if it is a leap year.
pub proof fn lemma_year_length(year: int)
    ensures
        days_before_year(year + 1) == days_before_year(year) + 365 + (if is_leap_year(year) {
            1int
        } else {
            0
        }),
{
    lemma_quotient_step(year, 4);
    lemma_quotient_step(year, 100);
    lemma_quotient_step(year, 400);
    assert(year % 400 == 0 ==> year % 100 == 0);
    assert(year % 100 == 0 ==> year % 4 == 0);
}

/// The first days of the years come in the order of the years.
pub proof fn lemma_years_in_order(y1: int, y2: int)
    requires
        y1 <= y2,
    ensures
        days_before_year(y1) + 365 * (y2 - y1) <= days_before_year(y2),
    decreases y2 - y1,
{
    if y1 < y2 {
        lemma_years_in_order(y1, y2 - 1);
        lemma_year_length(y2 - 1);
    }
}

/// The day number of a date lies within its year.
pub proof fn lemma_day_within_year(d: Date)
    requires
        d.wf(),
    ensures
        days_before_year(d.year as int) < d.day_number() <= days_before_year(d.year + 1),
{
    lemma_days_before_month(d.year as int, d.month as int);
    lemma_year_length(d.year as int);
}

/// The dates are ordered as their day numbers are, and no two dates share a
/// day number.
pub proof fn lemma_date_order(a: Date, b: Date)
    requires
        a.wf(),
        b.wf(),
    ensures
        a.precedes(b) <==> a.day_number() < b.day_number(),
        a == b <==> a.day_number() == b.day_number(),
{
    lemma_day_within_year(a);
    lemma_day_within_year(b);
    if a.year < b.year {
        lemma_years_in_order(a.year + 1, b.year as int);
    } else if b.year < a.year {
        lemma_years_in_order(b.year + 1, a.year as int);
    } else {
        lemma_days_before_month(a.year as int, a.month as int);
        lemma_days_before_month(b.year as int, b.month as int);
    }
}

} // verus!
