//! The title of a day.

use crate::boundaries::{first_sunday_from, first_sunday_on_or_after, Boundaries, BoundaryDays};
use crate::calendar::{
    days_between, format_month_day, is_day_number, lemma_day_number_in_range, month_day_text,
    weekday_of,
};
use crate::date::{lemma_days_before_month, Date, Weekday, MAX_YEAR, MIN_YEAR};
use crate::text::{decimal, decimal_text, ordinal, ordinal_text};
use vstd::prelude::*;
use vstd::string::*;

verus! {

/// The name of a weekday, by its number from Monday as 1 to Saturday as 6.
pub open spec fn weekday_name(day: int) -> Seq<char> {
    if day == 1 {
        "Monday"@
    } else if day == 2 {
        "Tuesday"@
    } else if day == 3 {
        "Wednesday"@
    } else if day == 4 {
        "Thursday"@
    } else if day == 5 {
        "Friday"@
    } else {
        "Saturday"@
    }
}

/// The title of `date` if it is one of the moveable feasts or a day of
/// Easter week. The first rule that holds decides.
pub open spec fn feast_title(date: Date, b: BoundaryDays) -> Option<Seq<char>> {
    let n = date.day_number();
    if n == b.ascension {
        Some("Ascension of Our Lord"@)
    } else if n == b.pentecost {
        Some("Pentecost Sunday"@)
    } else if n == b.pentecost + 7 && date.weekday() == Weekday::Sunday {
        Some("Trinity Sunday"@)
    } else if n == b.corpus_christi {
        Some("Corpus Christi"@)
    } else if n == b.sacred_heart {
        Some("Sacred Heart of Jesus"@)
    } else if n == b.ash_wednesday {
        Some("Ash Wednesday"@)
    } else if n == b.palm_sunday {
        Some("Palm Sunday"@)
    } else if n == b.easter - 3 {
        Some("Holy Thursday"@)
    } else if n == b.easter - 2 {
        Some("Good Friday"@)
    } else if n == b.easter - 1 {
        Some("Holy Saturday"@)
    } else if n == b.easter {
        Some("Easter Sunday"@)
    } else if 0 < n - b.easter < 7 {
        Some(weekday_name(n - b.easter) + " in Easter Week"@)
    } else {
        None
    }
}

/// The title of a day of a numbered week: of its Sunday, or of a weekday
/// ("feria") of it.
pub open spec fn counted_title(
    sunday: bool,
    week: nat,
    of_sunday: Seq<char>,
    of_feria: Seq<char>,
) -> Seq<char> {
    if sunday {
        ordinal_text(week) + of_sunday
    } else {
        "Feria of "@ + ordinal_text(week) + of_feria
    }
}

/// The title of a day of a named week: of its Sunday, or of a weekday of it.
pub open spec fn named_title(sunday: bool, name: Seq<char>) -> Seq<char> {
    if sunday {
        name + " Sunday"@
    } else {
        "Feria of "@ + name + " week"@
    }
}

/// The title of `date` by its place in the season it lies in, if it lies in
/// one of the seasons that number their weeks. The first rule that holds
/// decides.
///
/// The weeks after Epiphany are counted from the first Sunday that is
/// Epiphany or a later day, and the days before that Sunday belong to the
/// first week. The weeks after Easter and after Pentecost are counted from
/// the feast. A day of Advent has its title only up to 24 December.
pub open spec fn season_title(date: Date, b: BoundaryDays) -> Option<Seq<char>> {
    let n = date.day_number();
    let sunday = date.weekday() == Weekday::Sunday;
    if b.epiphany < n < b.septuagesima {
        let first = first_sunday_from(b.epiphany);
        let week = if n >= first {
            (n - first) / 7 + 1
        } else {
            1
        };
        Some(counted_title(sunday, week as nat, " Sunday after Epiphany"@, " week after Epiphany"@))
    } else if b.septuagesima <= n < b.ash_wednesday {
        let week = (n - b.septuagesima) / 7 + 1;
        if week == 1 {
            Some(named_title(sunday, "Septuagesima"@))
        } else if week == 2 {
            Some(named_title(sunday, "Sexagesima"@))
        } else {
            Some(named_title(sunday, "Quinquagesima"@))
        }
    } else if b.ash_wednesday < n < b.passion_sunday {
        if n < b.ash_wednesday + 4 {
            Some("Feria after Ash Wednesday"@)
        } else {
            let week = (n - b.ash_wednesday - 4) / 7 + 1;
            Some(counted_title(sunday, week as nat, " Sunday of Lent"@, " week of Lent"@))
        }
    } else if b.passion_sunday <= n < b.palm_sunday {
        if sunday {
            Some("Passion Sunday"@)
        } else {
            Some("Feria of Passion week"@)
        }
    } else if b.palm_sunday < n < b.easter - 3 && n - b.palm_sunday <= 3 {
        Some(weekday_name(n - b.palm_sunday) + " of Holy Week"@)
    } else if 7 <= n - b.easter < 49 {
        let week = (n - b.easter) / 7;
        Some(counted_title(sunday, week as nat, " Sunday after Easter"@, " week after Easter"@))
    } else if b.pentecost < n < b.advent1 {
        let week = (n - b.pentecost) / 7;
        Some(
            counted_title(
                sunday,
                week as nat,
                " Sunday after Pentecost"@,
                " week after Pentecost"@,
            ),
        )
    } else if b.advent1 <= n && date.month == 12 && date.day < 25 {
        let week = (n - b.advent1) / 7 + 1;
        Some(counted_title(sunday, week as nat, " Sunday of Advent"@, " week of Advent"@))
    } else {
        None
    }
}

/// The title of `date` if it is a day from Christmas to 5 January.
pub open spec fn christmas_title(date: Date) -> Option<Seq<char>> {
    if date.month == 12 && date.day >= 25 {
        if date.day == 25 {
            Some("Christmas Day"@)
        } else {
            Some("Day "@ + decimal((date.day - 24) as nat) + " of Christmas Octave"@)
        }
    } else if date.month == 1 && date.day <= 5 {
        Some("Day within Christmas Octave (Jan "@ + decimal(date.day as nat) + ")"@)
    } else {
        None
    }
}

/// The title of `date`: that of its feast, else that of its place in the
/// season, else that of its place in Christmastide, else its month and day.
pub open spec fn title_text(date: Date, b: BoundaryDays) -> Seq<char> {
    match feast_title(date, b) {
        Some(title) => title,
        None => match season_title(date, b) {
            Some(title) => title,
            None => match christmas_title(date) {
                Some(title) => title,
                None => month_day_text(date),
            },
        },
    }
}

/// The day numbers of the calendar, written out.
pub proof fn lemma_day_number_bounds(d: Date)
    requires
        d.wf(),
    ensures
        -95746129 <= d.day_number() <= 95745399,
{
    lemma_day_number_in_range(d);
    lemma_days_before_month(MIN_YEAR as int, 1);
    lemma_days_before_month(MAX_YEAR as int, 12);
}

/// The name of a weekday, by its number from Monday as 1 to Saturday as 6.
fn weekday_name_text(day: i64) -> (name: &'static str)
    ensures
        name@ == weekday_name(day as int),
{
    if day == 1 {
        "Monday"
    } else if day == 2 {
        "Tuesday"
    } else if day == 3 {
        "Wednesday"
    } else if day == 4 {
        "Thursday"
    } else if day == 5 {
        "Friday"
    } else {
        "Saturday"
    }
}

/// A text made of two parts.
fn joined(first: &str, second: &str) -> (text: String)
    ensures
        text@ == first@ + second@,
{
    let mut text = String::from_str(first);
    text.append(second);
    text
}

/// A text kept as an owned title.
fn titled(text: &str) -> (title: Option<String>)
    ensures
        title == Some(title->0),
        title->0@ == text@,
{
    Some(String::from_str(text))
}

/// The title of a day of a numbered week.
fn counted(sunday: bool, week: u32, of_sunday: &str, of_feria: &str) -> (title: Option<String>)
    ensures
        title is Some,
        title->0@ == counted_title(sunday, week as nat, of_sunday@, of_feria@),
{
    let number = ordinal(week);
    if sunday {
        let mut text = number;
        text.append(of_sunday);
        Some(text)
    } else {
        let mut text = String::from_str("Feria of ");
        text.append(number.as_str());
        text.append(of_feria);
        Some(text)
    }
}

/// The title of a day of a named week.
fn named(sunday: bool, name: &str) -> (title: Option<String>)
    ensures
        title is Some,
        title->0@ == named_title(sunday, name@),
{
    if sunday {
        Some(joined(name, " Sunday"))
    } else {
        let mut text = String::from_str("Feria of ");
        text.append(name);
        text.append(" week");
        Some(text)
    }
}

/// The title of `date` if it is one of the moveable feasts or a day of
/// Easter week.
pub fn moveable_feast_title(date: Date, b: &Boundaries) -> (title: Option<String>)
    requires
        date.wf(),
        b.wf(),
    ensures
        title is Some <==> feast_title(date, b@) is Some,
        title is Some ==> title->0@ == feast_title(date, b@)->0,
{
    let from_easter: i64 = days_between(date, b.easter);
    if date.is_same_day(&b.ascension) {
        return titled("Ascension of Our Lord");
    }
    if date.is_same_day(&b.pentecost) {
        return titled("Pentecost Sunday");
    }
    if days_between(date, b.pentecost) == 7 && weekday_of(date) == Weekday::Sunday {
        return titled("Trinity Sunday");
    }
    if date.is_same_day(&b.corpus_christi) {
        return titled("Corpus Christi");
    }
    if date.is_same_day(&b.sacred_heart) {
        return titled("Sacred Heart of Jesus");
    }
    if date.is_same_day(&b.ash_wednesday) {
        return titled("Ash Wednesday");
    }
    if date.is_same_day(&b.palm_sunday) {
        return titled("Palm Sunday");
    }
    if from_easter == -3 {
        return titled("Holy Thursday");
    }
    if from_easter == -2 {
        return titled("Good Friday");
    }
    if from_easter == -1 {
        return titled("Holy Saturday");
    }
    if from_easter == 0 {
        return titled("Easter Sunday");
    }
    if from_easter > 0 && from_easter < 7 {
        return Some(joined(weekday_name_text(from_easter), " in Easter Week"));
    }
    None
}

/// The title of `date` by its place in the season it lies in.
///
/// After Epiphany the weeks are counted from the first Sunday from
/// Epiphany on, which is sought day by day and has to be a day of the
/// calendar.
pub fn season_relative_title(date: Date, b: &Boundaries) -> (title: Option<String>)
    requires
        date.wf(),
        b.wf(),
        b@.epiphany < date.day_number() < b@.septuagesima ==> is_day_number(
            first_sunday_from(b@.epiphany),
        ),
    ensures
        title is Some <==> season_title(date, b@) is Some,
        title is Some ==> title->0@ == season_title(date, b@)->0,
{
    proof {
        lemma_day_number_bounds(date);
        lemma_day_number_bounds(b.easter);
        lemma_day_number_bounds(b.septuagesima);
        lemma_day_number_bounds(b.ash_wednesday);
        lemma_day_number_bounds(b.pentecost);
        lemma_day_number_bounds(b.advent1);
    }
    let sunday = weekday_of(date) == Weekday::Sunday;
    let from_easter: i64 = days_between(date, b.easter);
    if b.epiphany.is_before(&date) && date.is_before(&b.septuagesima) {
        let first = first_sunday_on_or_after(b.epiphany);
        proof {
            lemma_day_number_bounds(first);
        }
        let week: i64 = if first.is_on_or_before(&date) {
            days_between(date, first) / 7 + 1
        } else {
            1
        };
        return counted(sunday, week as u32, " Sunday after Epiphany", " week after Epiphany");
    }
    if b.septuagesima.is_on_or_before(&date) && date.is_before(&b.ash_wednesday) {
        let week: i64 = days_between(date, b.septuagesima) / 7 + 1;
        if week == 1 {
            return named(sunday, "Septuagesima");
        } else if week == 2 {
            return named(sunday, "Sexagesima");
        } else {
            return named(sunday, "Quinquagesima");
        }
    }
    if b.ash_wednesday.is_before(&date) && date.is_before(&b.passion_sunday) {
        let from_ashes: i64 = days_between(date, b.ash_wednesday);
        if from_ashes < 4 {
            return titled("Feria after Ash Wednesday");
        }
        let week: i64 = (from_ashes - 4) / 7 + 1;
        return counted(sunday, week as u32, " Sunday of Lent", " week of Lent");
    }
    if b.passion_sunday.is_on_or_before(&date) && date.is_before(&b.palm_sunday) {
        if sunday {
            return titled("Passion Sunday");
        }
        return titled("Feria of Passion week");
    }
    if b.palm_sunday.is_before(&date) && from_easter < -3 {
        let from_palms: i64 = days_between(date, b.palm_sunday);
        if from_palms <= 3 {
            return Some(joined(weekday_name_text(from_palms), " of Holy Week"));
        }
    }
    if from_easter >= 7 && from_easter < 49 {
        let week: i64 = from_easter / 7;
        return counted(sunday, week as u32, " Sunday after Easter", " week after Easter");
    }
    if b.pentecost.is_before(&date) && date.is_before(&b.advent1) {
        let week: i64 = days_between(date, b.pentecost) / 7;
        return counted(sunday, week as u32, " Sunday after Pentecost", " week after Pentecost");
    }
    if b.advent1.is_on_or_before(&date) && date.month == 12 && date.day < 25 {
        let week: i64 = days_between(date, b.advent1) / 7 + 1;
        return counted(sunday, week as u32, " Sunday of Advent", " week of Advent");
    }
    None
}

/// The title of `date` if it is a day from Christmas to 5 January.
pub fn christmastide_title(date: Date) -> (title: Option<String>)
    requires
        date.wf(),
    ensures
        title is Some <==> christmas_title(date) is Some,
        title is Some ==> title->0@ == christmas_title(date)->0,
{
    if date.month == 12 && date.day >= 25 {
        if date.day == 25 {
            return titled("Christmas Day");
        }
        let mut text = String::from_str("Day ");
        let day = decimal_text((date.day - 25 + 1) as u64);
        text.append(day.as_str());
        text.append(" of Christmas Octave");
        return Some(text);
    }
    if date.month == 1 && date.day <= 5 {
        let mut text = String::from_str("Day within Christmas Octave (Jan ");
        let day = decimal_text(date.day as u64);
        text.append(day.as_str());
        text.append(")");
        return Some(text);
    }
    None
}

/// The title of `date`, where `b` are the boundaries of its year.
///
/// For a day after Epiphany and before Septuagesima that is no feast, the
/// first Sunday from Epiphany on has to be a day of the calendar.
pub fn compute_title(date: Date, b: &Boundaries) -> (title: String)
    requires
        date.wf(),
        b.wf(),
        feast_title(date, b@) is None && b@.epiphany < date.day_number() < b@.septuagesima
            ==> is_day_number(first_sunday_from(b@.epiphany)),
    ensures
        title@ == title_text(date, b@),
{
    if let Some(title) = moveable_feast_title(date, b) {
        return title;
    }
    if let Some(title) = season_relative_title(date, b) {
        return title;
    }
    if let Some(title) = christmastide_title(date) {
        return title;
    }
    format_month_day(date)
}

} // verus!
