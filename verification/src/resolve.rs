//! The resolution of a day: the two keys, the title, the colour and the
//! calendar that governs.

use crate::boundaries::{boundaries, boundaries_of_year, BoundaryDays};
use crate::calendar::lemma_day_number_in_range;
use crate::color::{compute_color, season_color, Color};
use crate::date::{day_number, lemma_days_before_month, lemma_year_length, Date, MIN_YEAR};
use crate::easter::lemma_easter_range;
use crate::feasts::{check_special_feast, fixed_feast, sancti_key, sancti_key_text};
use crate::tempora::{
    compute_tempora_key, season_holds, season_key_text, season_of, tempora_key_text,
    unknown_key_text, Season,
};
use crate::text::decimal;
use crate::title::{compute_title, title_text};
use vstd::prelude::*;
use vstd::string::*;

verus! {

/// The calendar that governs a day.
#[derive(Clone, Copy, Debug, PartialEq, Eq, Structural)]
pub enum Source {
    /// The calendar of the seasons.
    Tempora,
    /// The calendar of the fixed feasts.
    Sancti,
}

impl Source {
    /// The name of the calendar, in lower case.
    pub open spec fn name_text(self) -> Seq<char> {
        match self {
            Source::Tempora => "tempora"@,
            Source::Sancti => "sancti"@,
        }
    }

    /// The name of the calendar, in lower case.
    pub fn name(self) -> (s: &'static str)
        ensures
            s@ == self.name_text(),
    {
        match self {
            Source::Tempora => "tempora",
            Source::Sancti => "sancti",
        }
    }
}

/// A resolved day.
#[derive(Debug)]
pub struct ResolvedDay {
    /// The key of the day in the calendar of the seasons.
    pub tempora_key: String,
    /// The key of the day in the calendar of the fixed feasts.
    pub sancti_key: String,
    /// The title of the day.
    pub title: String,
    /// The colour of the day.
    pub color: Color,
    /// The calendar that title and colour are taken from.
    pub source: Source,
}

/// A resolved day, its texts as sequences of characters.
pub struct ResolvedDayView {
    pub tempora_key: Seq<char>,
    pub sancti_key: Seq<char>,
    pub title: Seq<char>,
    pub color: Color,
    pub source: Source,
}

impl View for ResolvedDay {
    type V = ResolvedDayView;

    open spec fn view(&self) -> ResolvedDayView {
        ResolvedDayView {
            tempora_key: self.tempora_key@,
            sancti_key: self.sancti_key@,
            title: self.title@,
            color: self.color,
            source: self.source,
        }
    }
}

impl ResolvedDay {
    /// The five fields as texts, in their order: season key, fixed-feast
    /// key, title, colour, source.
    pub fn fields(self) -> (r: (String, String, String, String, String))
        ensures
            r.0@ == self.tempora_key@,
            r.1@ == self.sancti_key@,
            r.2@ == self.title@,
            r.3@ == self.color.name_text(),
            r.4@ == self.source.name_text(),
    {
        let color = String::from_str(self.color.name());
        let source = String::from_str(self.source.name());
        (self.tempora_key, self.sancti_key, self.title, color, source)
    }
}

/// What a date resolves to. The season key is always that of the date among
/// the boundaries of its year. On a fixed feast, title and colour are those
/// of the feast; on any other day, those of the season.
pub open spec fn resolved(date: Date) -> ResolvedDayView {
    let b = boundaries_of_year(date.year as int);
    let tempora_key = tempora_key_text(date, date.year as int, b);
    let sancti_key = sancti_key_text(date);
    match fixed_feast(sancti_key) {
        Some(feast) => ResolvedDayView {
            tempora_key,
            sancti_key,
            title: feast.0,
            color: feast.1,
            source: Source::Sancti,
        },
        None => ResolvedDayView {
            tempora_key,
            sancti_key,
            title: title_text(date, b),
            color: season_color(date, b),
            source: Source::Tempora,
        },
    }
}

/// Resolves a date. The year before that of the date has to be a year of
/// the calendar.
pub fn resolve_day(date: Date) -> (day: ResolvedDay)
    requires
        date.wf(),
        date.year > MIN_YEAR,
    ensures
        day@ == resolved(date),
        day.sancti_key@ == sancti_key_text(date),
        !"unknown-"@.is_prefix_of(day.tempora_key@),
{
    proof {
        lemma_resolved_key_is_known(date);
    }
    let year: i32 = date.year;
    let sancti_key = sancti_key(date);
    let b = boundaries(year);
    proof {
        lemma_days_before_month(year as int, 1);
        lemma_day_number_in_range(Date { year, month: 1, day: 13 });
    }
    let tempora_key = compute_tempora_key(date, year, &b);
    match check_special_feast(sancti_key.as_str()) {
        Some(feast) => ResolvedDay {
            tempora_key,
            sancti_key,
            title: feast.title,
            color: feast.color,
            source: Source::Sancti,
        },
        None => {
            let title = compute_title(date, &b);
            let color = compute_color(date, &b);
            ResolvedDay { tempora_key, sancti_key, title, color, source: Source::Tempora }
        },
    }
}

/// Every day of a year lies in a season, and in one only: the seasons
/// divide the year without a gap, and without an overlap but for the six
/// days after Pentecost, which Eastertide reaches through and the octave of
/// Pentecost names again.
pub proof fn lemma_one_season(date: Date)
    requires
        date.wf(),
    ensures
        ({
            let year = date.year as int;
            let b = boundaries_of_year(year);
            let season = season_of(date, year, b);
            &&& season is Some
            &&& season_holds(season->0, date, year, b)
            &&& forall|other: Season| #[trigger]
                season_holds(other, date, year, b) ==> other == season->0 || (season->0
                    == Season::Eastertide && other == Season::PentecostOctave)
            &&& season_holds(Season::PentecostOctave, date, year, b) ==> season->0
                == Season::Eastertide
            &&& tempora_key_text(date, year, b) == season_key_text(season->0, date, year, b)
        }),
{
    let year = date.year as int;
    lemma_easter_range(year);
    lemma_days_before_month(year, 1);
    lemma_days_before_month(year, 3);
    lemma_days_before_month(year, 4);
    lemma_days_before_month(year, 12);
    lemma_days_before_month(year - 1, 12);
    lemma_days_before_month(year, date.month as int);
    lemma_year_length(year - 1);
    let b = boundaries_of_year(year);
    assert(day_number(year, 1, 1) <= date.day_number() <= day_number(year, 12, 31));
    assert(day_number(year, 3, 22) <= b.easter <= day_number(year, 4, 25));
    assert(day_number(year, 11, 27) <= b.advent1 <= day_number(year, 12, 3));
}

/// The key of a day in a season begins with the name of the season, never
/// with the mark of a day that lies in none.
pub proof fn lemma_season_key_is_known(season: Season, date: Date, year: int, b: BoundaryDays)
    ensures
        !"unknown-"@.is_prefix_of(season_key_text(season, date, year, b)),
{
    reveal_strlit("unknown-");
    reveal_strlit("Nat1-0");
    reveal_strlit("Nat2-");
    reveal_strlit("Epi1-0a");
    reveal_strlit("Epi1-");
    reveal_strlit("Epi");
    reveal_strlit("Quadp1-");
    reveal_strlit("Quadp2-");
    reveal_strlit("Quadp3-");
    reveal_strlit("Quad");
    reveal_strlit("Quad5-");
    reveal_strlit("Quad6-");
    reveal_strlit("Pasc0-");
    reveal_strlit("Pasc");
    reveal_strlit("Pasc7-");
    reveal_strlit("Pent");
    reveal_strlit("Adv");
    let key = season_key_text(season, date, year, b);
    assert(key.len() > 0 && key[0] != 'u');
    if "unknown-"@.is_prefix_of(key) {
        assert(key.subrange(0, 8)[0] == 'u');
    }
}

/// No day resolves to the key of a day without a season.
pub proof fn lemma_resolved_key_is_known(date: Date)
    requires
        date.wf(),
    ensures
        !"unknown-"@.is_prefix_of(resolved(date).tempora_key),
        resolved(date).tempora_key != unknown_key_text(date),
{
    let year = date.year as int;
    let b = boundaries_of_year(year);
    lemma_one_season(date);
    lemma_season_key_is_known(season_of(date, year, b)->0, date, year, b);
    reveal_strlit("unknown-");
    assert("unknown-"@.is_prefix_of(unknown_key_text(date))) by {
        assert(unknown_key_text(date).subrange(0, 8) =~= "unknown-"@);
    }
}

/// The season key of 1 January: the day is the eighth of the octave of
/// Christmas, and its number, 7, follows the `0` of the key at once.
pub proof fn lemma_new_year_key(date: Date)
    requires
        date.wf(),
        date.month == 1,
        date.day == 1,
    ensures
        resolved(date).tempora_key == "Nat1-07"@,
{
    let year = date.year as int;
    lemma_days_before_month(year, 1);
    lemma_days_before_month(year - 1, 12);
    lemma_year_length(year - 1);
    assert(date.day_number() - day_number(year - 1, 12, 25) == 7);
    reveal_strlit("Nat1-0");
    reveal_strlit("Nat1-07");
    assert("Nat1-0"@ + decimal(7) =~= "Nat1-07"@);
}

/// The fixed-feast key of a resolved day is the month and the day of the
/// date in two digits each, whatever its season and whichever calendar
/// governs.
pub proof fn lemma_sancti_key_of_every_day(date: Date)
    ensures
        resolved(date).sancti_key == sancti_key_text(date),
{
}

/// Resolving is a function of the date: what two resolutions of one date
/// give is the same, field by field.
pub proof fn lemma_resolution_repeats(date: Date, first: ResolvedDay, second: ResolvedDay)
    requires
        first@ == resolved(date),
        second@ == resolved(date),
    ensures
        first@ == second@,
        first.tempora_key@ == second.tempora_key@,
        first.sancti_key@ == second.sancti_key@,
        first.title@ == second.title@,
        first.color == second.color,
        first.source == second.source,
{
}

} // verus!
