//! The season ("tempora") key of a day: the season the day lies in, and the
//! key that numbers the day within it.

use crate::boundaries::{first_sunday_from, first_sunday_on_or_after, Boundaries, BoundaryDays};
use crate::calendar::{
    add_days, days_between, format_iso, is_day_number, iso_date_text, lemma_day_number_in_range,
    weekday_of,
};
use crate::date::{day_number, Date, MAX_YEAR, MIN_YEAR};
use crate::text::{decimal, decimal_text, two_digit_text, two_digits};
use vstd::prelude::*;
use vstd::string::*;

verus! {

/// The seasons that the year is divided into, in the order in which a day
/// is tried against them.
#[derive(Clone, Copy, Debug, PartialEq, Eq, Structural)]
pub enum Season {
    /// From 25 December of the year before through 1 January.
    ChristmasOctave,
    /// From 2 to 5 January.
    BeforeEpiphany,
    /// 6 January.
    Epiphany,
    /// After Epiphany, up to Septuagesima.
    AfterEpiphany,
    /// From Septuagesima up to Ash Wednesday.
    Septuagesima,
    /// From Ash Wednesday up to Passion Sunday.
    Lent,
    /// From Passion Sunday up to Palm Sunday.
    Passiontide,
    /// From Palm Sunday up to Easter.
    HolyWeek,
    /// Easter Sunday and the six days after it.
    EasterWeek,
    /// From the Sunday after Easter through the octave of Pentecost.
    Eastertide,
    /// The six days after Pentecost.
    PentecostOctave,
    /// From Trinity Sunday up to Advent.
    AfterPentecost,
    /// From the first Sunday of Advent on.
    Advent,
}

/// Whether `date` lies within the bounds of `season`, taken by itself. The
/// year that is being resolved is `year`, and `b` are its boundaries.
pub open spec fn season_holds(season: Season, date: Date, year: int, b: BoundaryDays) -> bool {
    let n = date.day_number();
    match season {
        Season::ChristmasOctave => day_number(year - 1, 12, 25) <= n <= day_number(year, 1, 1),
        Season::BeforeEpiphany => date.month == 1 && 2 <= date.day <= 5 && n < b.epiphany,
        Season::Epiphany => n == b.epiphany,
        Season::AfterEpiphany => b.epiphany < n < b.septuagesima,
        Season::Septuagesima => b.septuagesima <= n < b.ash_wednesday,
        Season::Lent => b.ash_wednesday <= n < b.passion_sunday,
        Season::Passiontide => b.passion_sunday <= n < b.palm_sunday,
        Season::HolyWeek => b.palm_sunday <= n < b.easter,
        Season::EasterWeek => 0 <= n - b.easter <= 6,
        Season::Eastertide => 6 < n - b.easter <= 55,
        Season::PentecostOctave => b.pentecost < n < b.pentecost + 7,
        Season::AfterPentecost => b.pentecost + 7 <= n < b.advent1,
        Season::Advent => b.advent1 <= n,
    }
}

/// The season of `date`: the first one, in their order, within whose bounds
/// it lies.
pub open spec fn season_of(date: Date, year: int, b: BoundaryDays) -> Option<Season> {
    if season_holds(Season::ChristmasOctave, date, year, b) {
        Some(Season::ChristmasOctave)
    } else if season_holds(Season::BeforeEpiphany, date, year, b) {
        Some(Season::BeforeEpiphany)
    } else if season_holds(Season::Epiphany, date, year, b) {
        Some(Season::Epiphany)
    } else if season_holds(Season::AfterEpiphany, date, year, b) {
        Some(Season::AfterEpiphany)
    } else if season_holds(Season::Septuagesima, date, year, b) {
        Some(Season::Septuagesima)
    } else if season_holds(Season::Lent, date, year, b) {
        Some(Season::Lent)
    } else if season_holds(Season::Passiontide, date, year, b) {
        Some(Season::Passiontide)
    } else if season_holds(Season::HolyWeek, date, year, b) {
        Some(Season::HolyWeek)
    } else if season_holds(Season::EasterWeek, date, year, b) {
        Some(Season::EasterWeek)
    } else if season_holds(Season::Eastertide, date, year, b) {
        Some(Season::Eastertide)
    } else if season_holds(Season::PentecostOctave, date, year, b) {
        Some(Season::PentecostOctave)
    } else if season_holds(Season::AfterPentecost, date, year, b) {
        Some(Season::AfterPentecost)
    } else if season_holds(Season::Advent, date, year, b) {
        Some(Season::Advent)
    } else {
        None
    }
}

/// The key of `date` as a day of `season`.
///
/// Where a key ends in a weekday, Sunday is 0 and Saturday 6. The weeks of a
/// season are numbered from 1, but for the weeks after Easter and after
/// Pentecost, which are counted from the feast. In the octave of Christmas
/// the day follows the `0` of the key without a hyphen, and the first day
/// has none.
pub open spec fn season_key_text(season: Season, date: Date, year: int, b: BoundaryDays) -> Seq<char> {
    let n = date.day_number();
    let weekday = decimal(date.weekday().index() as nat);
    match season {
        Season::ChristmasOctave => {
            let day = n - day_number(year - 1, 12, 25);
            if day == 0 {
                "Nat1-0"@
            } else {
                "Nat1-0"@ + decimal(day as nat)
            }
        },
        Season::BeforeEpiphany => "Nat2-"@ + weekday,
        Season::Epiphany => "Epi1-0a"@,
        Season::AfterEpiphany => {
            let sunday = first_sunday_from(b.epiphany + 1);
            if n < sunday {
                "Epi1-"@ + weekday
            } else {
                "Epi"@ + decimal(((n - sunday) / 7 + 1) as nat) + "-"@ + weekday
            }
        },
        Season::Septuagesima => {
            let week = (n - b.septuagesima) / 7 + 1;
            if week == 1 {
                "Quadp1-"@ + weekday
            } else if week == 2 {
                "Quadp2-"@ + weekday
            } else {
                "Quadp3-"@ + weekday
            }
        },
        Season::Lent => {
            let days = n - b.ash_wednesday;
            if days < 4 {
                "Quadp3-"@ + decimal((days + 3) as nat)
            } else {
                "Quad"@ + decimal(((days - 4) / 7 + 1) as nat) + "-"@ + weekday
            }
        },
        Season::Passiontide => "Quad5-"@ + decimal(((n - b.passion_sunday) % 7) as nat),
        Season::HolyWeek => "Quad6-"@ + decimal((n - b.palm_sunday) as nat),
        Season::EasterWeek => "Pasc0-"@ + decimal((n - b.easter) as nat),
        Season::Eastertide => "Pasc"@ + decimal(((n - b.easter) / 7) as nat) + "-"@ + decimal(
            ((n - b.easter) % 7) as nat,
        ),
        Season::PentecostOctave => "Pasc7-"@ + decimal((n - b.pentecost) as nat),
        Season::AfterPentecost => "Pent"@ + two_digits(((n - b.pentecost) / 7) as nat) + "-"@
            + weekday,
        Season::Advent => "Adv"@ + decimal(((n - b.advent1) / 7 + 1) as nat) + "-"@ + weekday,
    }
}

/// The key of a day that lies in no season.
pub open spec fn unknown_key_text(date: Date) -> Seq<char> {
    "unknown-"@ + iso_date_text(date)
}

/// The season key of `date`: the key of the day in its season.
pub open spec fn tempora_key_text(date: Date, year: int, b: BoundaryDays) -> Seq<char> {
    match season_of(date, year, b) {
        Some(season) => season_key_text(season, date, year, b),
        None => unknown_key_text(date),
    }
}

/// The season of `date`, if it lies in one. The octave of Christmas is
/// counted from the Christmas of the year before `year`, which has to be a
/// year of the calendar.
pub fn classify(date: Date, year: i32, b: &Boundaries) -> (season: Option<Season>)
    requires
        date.wf(),
        b.wf(),
        MIN_YEAR < year <= MAX_YEAR,
    ensures
        season == season_of(date, year as int, b@),
{
    let last_christmas = Date { year: year - 1, month: 12, day: 25 };
    let new_year = Date { year, month: 1, day: 1 };
    if date.is_on_or_before(&new_year) && last_christmas.is_on_or_before(&date) {
        return Some(Season::ChristmasOctave);
    }
    if date.month == 1 && date.day >= 2 && date.day <= 5 && date.is_before(&b.epiphany) {
        return Some(Season::BeforeEpiphany);
    }
    if date.is_same_day(&b.epiphany) {
        return Some(Season::Epiphany);
    }
    if b.epiphany.is_before(&date) && date.is_before(&b.septuagesima) {
        return Some(Season::AfterEpiphany);
    }
    if b.septuagesima.is_on_or_before(&date) && date.is_before(&b.ash_wednesday) {
        return Some(Season::Septuagesima);
    }
    if b.ash_wednesday.is_on_or_before(&date) && date.is_before(&b.passion_sunday) {
        return Some(Season::Lent);
    }
    if b.passion_sunday.is_on_or_before(&date) && date.is_before(&b.palm_sunday) {
        return Some(Season::Passiontide);
    }
    if b.palm_sunday.is_on_or_before(&date) && date.is_before(&b.easter) {
        return Some(Season::HolyWeek);
    }
    let days_from_easter: i64 = days_between(date, b.easter);
    if days_from_easter >= 0 && days_from_easter <= 6 {
        return Some(Season::EasterWeek);
    }
    if days_from_easter > 6 && days_from_easter <= 55 {
        return Some(Season::Eastertide);
    }
    let days_from_pentecost: i64 = days_between(date, b.pentecost);
    if days_from_pentecost > 0 && days_from_pentecost < 7 {
        return Some(Season::PentecostOctave);
    }
    if days_from_pentecost >= 7 && date.is_before(&b.advent1) {
        return Some(Season::AfterPentecost);
    }
    if b.advent1.is_on_or_before(&date) {
        return Some(Season::Advent);
    }
    None
}

/// A key made of the name of a season, a number and the weekday.
fn numbered_key(name: &str, number: u64, weekday: &str) -> (key: String)
    ensures
        key@ == name@ + decimal(number as nat) + "-"@ + weekday@,
{
    let mut key = String::from_str(name);
    let digits = decimal_text(number);
    key.append(digits.as_str());
    key.append("-");
    key.append(weekday);
    key
}

/// A key made of a prefix and the number of a day.
fn day_key(prefix: &str, day: u64) -> (key: String)
    ensures
        key@ == prefix@ + decimal(day as nat),
{
    let mut key = String::from_str(prefix);
    let digits = decimal_text(day);
    key.append(digits.as_str());
    key
}

/// A key made of a prefix and a text.
fn joined_key(prefix: &str, rest: &str) -> (key: String)
    ensures
        key@ == prefix@ + rest@,
{
    let mut key = String::from_str(prefix);
    key.append(rest);
    key
}

/// The key of `date` as a day of `season`, within whose bounds it lies.
///
/// After Epiphany the weeks are counted from the Sunday after it, which is
/// sought day by day and has to be a day of the calendar.
pub fn season_key(season: Season, date: Date, year: i32, b: &Boundaries) -> (key: String)
    requires
        date.wf(),
        b.wf(),
        MIN_YEAR < year <= MAX_YEAR,
        season_holds(season, date, year as int, b@),
        season == Season::AfterEpiphany ==> is_day_number(first_sunday_from(b@.epiphany + 1)),
    ensures
        key@ == season_key_text(season, date, year as int, b@),
{
    let weekday = decimal_text(weekday_of(date).number() as u64);
    match season {
        Season::ChristmasOctave => {
            let last_christmas = Date { year: year - 1, month: 12, day: 25 };
            let day: i64 = days_between(date, last_christmas);
            if day == 0 {
                String::from_str("Nat1-0")
            } else {
                day_key("Nat1-0", day as u64)
            }
        },
        Season::BeforeEpiphany => joined_key("Nat2-", weekday.as_str()),
        Season::Epiphany => String::from_str("Epi1-0a"),
        Season::AfterEpiphany => {
            proof {
                lemma_day_number_in_range(b.epiphany);
                lemma_day_number_in_range(date);
            }
            let sunday = first_sunday_on_or_after(add_days(b.epiphany, 1));
            if date.is_before(&sunday) {
                joined_key("Epi1-", weekday.as_str())
            } else {
                let week: i64 = days_between(date, sunday) / 7 + 1;
                numbered_key("Epi", week as u64, weekday.as_str())
            }
        },
        Season::Septuagesima => {
            let week: i64 = days_between(date, b.septuagesima) / 7 + 1;
            if week == 1 {
                joined_key("Quadp1-", weekday.as_str())
            } else if week == 2 {
                joined_key("Quadp2-", weekday.as_str())
            } else {
                joined_key("Quadp3-", weekday.as_str())
            }
        },
        Season::Lent => {
            let days: i64 = days_between(date, b.ash_wednesday);
            if days < 4 {
                day_key("Quadp3-", (days + 3) as u64)
            } else {
                let week: i64 = (days - 4) / 7 + 1;
                numbered_key("Quad", week as u64, weekday.as_str())
            }
        },
        Season::Passiontide => {
            let days: i64 = days_between(date, b.passion_sunday);
            day_key("Quad5-", (days % 7) as u64)
        },
        Season::HolyWeek => {
            let days: i64 = days_between(date, b.palm_sunday);
            day_key("Quad6-", days as u64)
        },
        Season::EasterWeek => {
            let days: i64 = days_between(date, b.easter);
            day_key("Pasc0-", days as u64)
        },
        Season::Eastertide => {
            let days: i64 = days_between(date, b.easter);
            let day = decimal_text((days % 7) as u64);
            numbered_key("Pasc", (days / 7) as u64, day.as_str())
        },
        Season::PentecostOctave => {
            let days: i64 = days_between(date, b.pentecost);
            day_key("Pasc7-", days as u64)
        },
        Season::AfterPentecost => {
            let weeks: i64 = days_between(date, b.pentecost) / 7;
            let mut key = String::from_str("Pent");
            let digits = two_digit_text(weeks as u64);
            key.append(digits.as_str());
            key.append("-");
            key.append(weekday.as_str());
            key
        },
        Season::Advent => {
            let week: i64 = days_between(date, b.advent1) / 7 + 1;
            numbered_key("Adv", week as u64, weekday.as_str())
        },
    }
}

/// The key of a day that lies in no season.
pub fn unknown_key(date: Date) -> (key: String)
    requires
        date.wf(),
    ensures
        key@ == unknown_key_text(date),
{
    let text = format_iso(date);
    joined_key("unknown-", text.as_str())
}

/// The season key of `date`, where `year` is the year that is being
/// resolved and `b` are its boundaries.
///
/// The year before `year` has to be a year of the calendar, and so has, for
/// a day of the season after Epiphany, the Sunday after Epiphany.
pub fn compute_tempora_key(date: Date, year: i32, b: &Boundaries) -> (key: String)
    requires
        date.wf(),
        b.wf(),
        MIN_YEAR < year <= MAX_YEAR,
        season_of(date, year as int, b@) == Some(Season::AfterEpiphany) ==> is_day_number(
            first_sunday_from(b@.epiphany + 1),
        ),
    ensures
        key@ == tempora_key_text(date, year as int, b@),
{
    match classify(date, year, b) {
        Some(season) => season_key(season, date, year, b),
        None => unknown_key(date),
    }
}

} // verus!
