//! The moveable boundary dates of a year, all derived from its Easter.

use crate::calendar::{add_days, is_day_number, lemma_day_number_in_range, weekday_of};
use crate::date::{
    day_number, lemma_days_before_month, weekday_of_day, Date, Weekday, MAX_YEAR, MIN_YEAR,
};
use crate::easter::{
    easter, easter_date, easter_day, easter_month, lemma_easter_is_sunday, lemma_easter_range,
};
use vstd::prelude::*;

verus! {

/// The boundary dates of one year.
#[derive(Clone, Copy, Debug)]
pub struct Boundaries {
    /// Easter Sunday.
    pub easter: Date,
    /// 6 January.
    pub epiphany: Date,
    /// The ninth Sunday before Easter.
    pub septuagesima: Date,
    /// The first day of Lent.
    pub ash_wednesday: Date,
    /// The second Sunday before Easter.
    pub passion_sunday: Date,
    /// The Sunday before Easter.
    pub palm_sunday: Date,
    /// The fortieth day of Easter, a Thursday.
    pub ascension: Date,
    /// The fiftieth day of Easter, a Sunday.
    pub pentecost: Date,
    /// The Thursday after Trinity Sunday.
    pub corpus_christi: Date,
    /// The Friday of the week after Corpus Christi.
    pub sacred_heart: Date,
    /// The first Sunday of Advent.
    pub advent1: Date,
}

/// The boundary dates of one year as day numbers: what the rules of the
/// seasons, titles and colours read of the boundaries.
pub struct BoundaryDays {
    pub easter: int,
    pub epiphany: int,
    pub septuagesima: int,
    pub ash_wednesday: int,
    pub passion_sunday: int,
    pub palm_sunday: int,
    pub ascension: int,
    pub pentecost: int,
    pub corpus_christi: int,
    pub sacred_heart: int,
    pub advent1: int,
}

impl View for Boundaries {
    type V = BoundaryDays;

    open spec fn view(&self) -> BoundaryDays {
        BoundaryDays {
            easter: self.easter.day_number(),
            epiphany: self.epiphany.day_number(),
            septuagesima: self.septuagesima.day_number(),
            ash_wednesday: self.ash_wednesday.day_number(),
            passion_sunday: self.passion_sunday.day_number(),
            palm_sunday: self.palm_sunday.day_number(),
            ascension: self.ascension.day_number(),
            pentecost: self.pentecost.day_number(),
            corpus_christi: self.corpus_christi.day_number(),
            sacred_heart: self.sacred_heart.day_number(),
            advent1: self.advent1.day_number(),
        }
    }
}

impl Boundaries {
    /// Every boundary is a day of the calendar.
    pub open spec fn wf(self) -> bool {
        &&& self.easter.wf()
        &&& self.epiphany.wf()
        &&& self.septuagesima.wf()
        &&& self.ash_wednesday.wf()
        &&& self.passion_sunday.wf()
        &&& self.palm_sunday.wf()
        &&& self.ascension.wf()
        &&& self.pentecost.wf()
        &&& self.corpus_christi.wf()
        &&& self.sacred_heart.wf()
        &&& self.advent1.wf()
    }
}

/// The number of the first Sunday that is day `n` or a later day.
pub open spec fn first_sunday_from(n: int) -> int {
    n + (7 - n % 7) % 7
}

/// The first Sunday from a day is a Sunday, it is that day or one of the six
/// days after it, and no day between the two is a Sunday.
pub proof fn lemma_first_sunday(n: int)
    ensures
        weekday_of_day(first_sunday_from(n)) == Weekday::Sunday,
        n <= first_sunday_from(n) <= n + 6,
        forall|day: int|
            n <= day < first_sunday_from(n) ==> #[trigger] weekday_of_day(day) != Weekday::Sunday,
{
    assert forall|day: int| n <= day < first_sunday_from(n) implies #[trigger] weekday_of_day(day)
        != Weekday::Sunday by {
        assert(day % 7 != 0);
    }
}

/// The boundaries of `year`, given the day number of its Easter, as day
/// numbers: fixed distances from Easter, 6 January, and the Sunday among the
/// seven days from 27 November.
pub open spec fn boundary_days(year: int, easter: int) -> BoundaryDays {
    BoundaryDays {
        easter,
        epiphany: day_number(year, 1, 6),
        septuagesima: easter - 63,
        ash_wednesday: easter - 46,
        passion_sunday: easter - 14,
        palm_sunday: easter - 7,
        ascension: easter + 39,
        pentecost: easter + 49,
        corpus_christi: easter + 60,
        sacred_heart: easter + 68,
        advent1: first_sunday_from(day_number(year, 12, 25) - 28),
    }
}

/// The boundaries of `year` as day numbers.
pub open spec fn boundaries_of_year(year: int) -> BoundaryDays {
    boundary_days(year, easter_date(year).day_number())
}

/// The first Sunday that is `start` or a later day, found by going on day by
/// day. That Sunday has to be a day of the calendar.
pub fn first_sunday_on_or_after(start: Date) -> (sunday: Date)
    requires
        start.wf(),
        is_day_number(first_sunday_from(start.day_number())),
    ensures
        sunday.wf(),
        sunday.day_number() == first_sunday_from(start.day_number()),
        sunday.weekday() == Weekday::Sunday,
{
    let mut day = start;
    let mut weekday = weekday_of(day);
    while weekday != Weekday::Sunday
        invariant
            day.wf(),
            weekday == day.weekday(),
            start.day_number() <= day.day_number() <= first_sunday_from(start.day_number()),
            is_day_number(first_sunday_from(start.day_number())),
        decreases first_sunday_from(start.day_number()) - day.day_number(),
    {
        proof {
            lemma_day_number_in_range(day);
        }
        day = add_days(day, 1);
        weekday = weekday_of(day);
    }
    day
}

/// The boundary dates of `year`, given its Easter: the days at their fixed
/// distances from Easter, from 63 days before it to 68 days after it, all of
/// which have to be days of the calendar; 6 January; and the first Sunday
/// from four weeks before Christmas on.
pub fn derive_boundaries(year: i32, easter: Date) -> (b: Boundaries)
    requires
        MIN_YEAR <= year <= MAX_YEAR,
        easter.wf(),
        is_day_number(easter.day_number() - 63),
        is_day_number(easter.day_number() + 68),
    ensures
        b.wf(),
        b@ == boundary_days(year as int, easter.day_number()),
        b.easter == easter,
        b.epiphany == (Date { year, month: 1, day: 6 }),
        b.advent1.weekday() == Weekday::Sunday,
{
    let christmas = Date { year, month: 12, day: 25 };
    let last = Date { year, month: 12, day: 31 };
    let first = Date { year, month: 1, day: 1 };
    proof {
        lemma_days_before_month(year as int, 1);
        lemma_days_before_month(year as int, 12);
        lemma_day_number_in_range(easter);
        lemma_day_number_in_range(first);
        lemma_day_number_in_range(last);
    }
    let advent_start = add_days(christmas, -28);
    Boundaries {
        easter,
        epiphany: Date { year, month: 1, day: 6 },
        septuagesima: add_days(easter, -63),
        ash_wednesday: add_days(easter, -46),
        passion_sunday: add_days(easter, -14),
        palm_sunday: add_days(easter, -7),
        ascension: add_days(easter, 39),
        pentecost: add_days(easter, 49),
        corpus_christi: add_days(easter, 60),
        sacred_heart: add_days(easter, 68),
        advent1: first_sunday_on_or_after(advent_start),
    }
}

/// The boundary dates of `year`.
pub fn boundaries(year: i32) -> (b: Boundaries)
    requires
        MIN_YEAR <= year <= MAX_YEAR,
    ensures
        b.wf(),
        b@ == boundaries_of_year(year as int),
        b.easter == easter_date(year as int),
        b.epiphany == (Date { year, month: 1, day: 6 }),
{
    let sunday = easter(year);
    proof {
        lemma_easter_in_year(year as int);
    }
    derive_boundaries(year, sunday)
}

/// Easter lies so far from both ends of its year that the boundaries
/// derived from it are days of the same year.
pub proof fn lemma_easter_in_year(year: int)
    requires
        MIN_YEAR <= year <= MAX_YEAR,
    ensures
        easter_date(year).wf(),
        easter_date(year).day_number() - 63 >= day_number(year, 1, 18),
        easter_date(year).day_number() + 68 <= day_number(year, 7, 2),
        is_day_number(easter_date(year).day_number() - 63),
        is_day_number(easter_date(year).day_number() + 68),
{
    lemma_easter_range(year);
    lemma_days_before_month(year, 1);
    lemma_days_before_month(year, 3);
    lemma_days_before_month(year, 4);
    lemma_days_before_month(year, 7);
    lemma_day_number_in_range(Date { year: year as i32, month: 1, day: 18 });
    lemma_day_number_in_range(Date { year: year as i32, month: 7, day: 2 });
}

/// The boundaries of a year follow one another in their order, from
/// Epiphany to the first Sunday of Advent, all within the year. Easter is a
/// day from 22 March to 25 April, the first Sunday of Advent a day from 27
/// November to 3 December.
pub proof fn lemma_boundaries_in_order(year: int)
    requires
        MIN_YEAR <= year <= MAX_YEAR,
    ensures
        ({
            let b = boundaries_of_year(year);
            &&& day_number(year, 1, 1) < b.epiphany < b.septuagesima < b.ash_wednesday
                < b.passion_sunday < b.palm_sunday < b.easter < b.ascension < b.pentecost
                < b.corpus_christi < b.sacred_heart < b.advent1 < day_number(year, 12, 25)
            &&& day_number(year, 3, 22) <= b.easter <= day_number(year, 4, 25)
            &&& day_number(year, 11, 27) <= b.advent1 <= day_number(year, 12, 3)
        }),
{
    lemma_easter_range(year);
    lemma_days_before_month(year, 1);
    lemma_days_before_month(year, 3);
    lemma_days_before_month(year, 4);
    lemma_days_before_month(year, 11);
    lemma_days_before_month(year, 12);
}

/// The weekdays of the days that lie at the boundaries' distances from a
/// Sunday, and of the first Sunday from any day.
proof fn lemma_weekdays_around_sunday(sunday: int, start: int)
    requires
        weekday_of_day(sunday) == Weekday::Sunday,
    ensures
        weekday_of_day(sunday - 63) == Weekday::Sunday,
        weekday_of_day(sunday - 46) == Weekday::Wednesday,
        weekday_of_day(sunday - 14) == Weekday::Sunday,
        weekday_of_day(sunday - 7) == Weekday::Sunday,
        weekday_of_day(sunday + 39) == Weekday::Thursday,
        weekday_of_day(sunday + 49) == Weekday::Sunday,
        weekday_of_day(sunday + 60) == Weekday::Thursday,
        weekday_of_day(sunday + 68) == Weekday::Friday,
        weekday_of_day(first_sunday_from(start)) == Weekday::Sunday,
{
    assert(sunday % 7 == 0);
}

/// Easter and the first Sunday of Advent are Sundays, and so are the other
/// boundaries that lie whole weeks from Easter; Ash Wednesday is a
/// Wednesday, Ascension and Corpus Christi are Thursdays, the feast of the
/// Sacred Heart is a Friday.
pub proof fn lemma_boundary_weekdays(year: int)
    requires
        MIN_YEAR <= year <= MAX_YEAR,
    ensures
        ({
            let b = boundaries_of_year(year);
            &&& weekday_of_day(b.easter) == Weekday::Sunday
            &&& weekday_of_day(b.advent1) == Weekday::Sunday
            &&& weekday_of_day(b.septuagesima) == Weekday::Sunday
            &&& weekday_of_day(b.passion_sunday) == Weekday::Sunday
            &&& weekday_of_day(b.palm_sunday) == Weekday::Sunday
            &&& weekday_of_day(b.pentecost) == Weekday::Sunday
            &&& weekday_of_day(b.ash_wednesday) == Weekday::Wednesday
            &&& weekday_of_day(b.ascension) == Weekday::Thursday
            &&& weekday_of_day(b.corpus_christi) == Weekday::Thursday
            &&& weekday_of_day(b.sacred_heart) == Weekday::Friday
        }),
{
    lemma_easter_is_sunday(year);
    lemma_easter_range(year);
    let easter = easter_date(year).day_number();
    assert(easter == day_number(year, easter_month(year), easter_day(year)));
    lemma_weekdays_around_sunday(easter, day_number(year, 12, 25) - 28);
}

} // verus!
