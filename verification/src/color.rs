//! The liturgical colour of a day.

use crate::boundaries::{boundaries_of_year, Boundaries, BoundaryDays};
use crate::calendar::days_between;
use crate::date::Date;
use vstd::prelude::*;

verus! {

/// A liturgical colour.
#[derive(Clone, Copy, Debug, PartialEq, Eq, Structural)]
pub enum Color {
    White,
    Red,
    Black,
    Green,
    Violet,
}

impl Color {
    /// The name of the colour, in lower case.
    pub open spec fn name_text(self) -> Seq<char> {
        match self {
            Color::White => "white"@,
            Color::Red => "red"@,
            Color::Black => "black"@,
            Color::Green => "green"@,
            Color::Violet => "violet"@,
        }
    }

    /// The name of the colour, in lower case.
    pub fn name(self) -> (s: &'static str)
        ensures
            s@ == self.name_text(),
    {
        match self {
            Color::White => "white",
            Color::Red => "red",
            Color::Black => "black",
            Color::Green => "green",
            Color::Violet => "violet",
        }
    }
}

/// The colour of the season of `date`: white from Easter through the octave
/// of Pentecost and from Christmas through 13 January, red on Pentecost,
/// violet from Septuagesima to Easter and from the first Sunday of Advent on,
/// green on every other day. The first rule that holds decides.
pub open spec fn season_color(date: Date, b: BoundaryDays) -> Color {
    let n = date.day_number();
    if 0 <= n - b.easter <= 55 {
        Color::White
    } else if date.month == 12 && date.day >= 25 {
        Color::White
    } else if date.month == 1 && date.day <= 13 {
        Color::White
    } else if n == b.pentecost {
        Color::Red
    } else if b.septuagesima <= n < b.easter {
        Color::Violet
    } else if n >= b.advent1 {
        Color::Violet
    } else {
        Color::Green
    }
}

/// The colour of the season of `date`.
pub fn compute_color(date: Date, b: &Boundaries) -> (color: Color)
    requires
        date.wf(),
        b.wf(),
    ensures
        color == season_color(date, b@),
{
    let days_from_easter: i64 = days_between(date, b.easter);
    if days_from_easter >= 0 && days_from_easter <= 55 {
        return Color::White;
    }
    if date.month == 12 && date.day >= 25 {
        return Color::White;
    }
    if date.month == 1 && date.day <= 13 {
        return Color::White;
    }
    if date.is_same_day(&b.pentecost) {
        return Color::Red;
    }
    if b.septuagesima.is_on_or_before(&date) && date.is_before(&b.easter) {
        return Color::Violet;
    }
    if b.advent1.is_on_or_before(&date) {
        return Color::Violet;
    }
    Color::Green
}

/// Among the boundaries of its own year no day is red by its season:
/// Pentecost is the fiftieth of the white days that begin with Easter, and
/// the white rule is tried before the red one.
pub proof fn lemma_season_color_is_never_red(date: Date)
    requires
        date.wf(),
    ensures
        season_color(date, boundaries_of_year(date.year as int)) != Color::Red,
        date.day_number() == boundaries_of_year(date.year as int).pentecost ==> season_color(
            date,
            boundaries_of_year(date.year as int),
        ) == Color::White,
{
}

} // verus!
