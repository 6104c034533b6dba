//! The feasts of fixed date that take the place of the season's Mass.

use crate::color::Color;
use crate::date::Date;
use crate::text::{same_text, two_digit_text, two_digits};
use vstd::prelude::*;
use vstd::string::*;

verus! {

/// A feast of fixed date: its title and its colour.
#[derive(Debug)]
pub struct FixedFeast {
    pub title: String,
    pub color: Color,
}

impl View for FixedFeast {
    type V = (Seq<char>, Color);

    open spec fn view(&self) -> (Seq<char>, Color) {
        (self.title@, self.color)
    }
}

/// The key of a date in the calendar of fixed feasts: month and day in two
/// digits each, joined by a hyphen.
pub open spec fn sancti_key_text(date: Date) -> Seq<char> {
    two_digits(date.month as nat) + "-"@ + two_digits(date.day as nat)
}

/// The table of the fixed feasts: title and colour of the feast kept on the
/// day with the given key, if there is one.
pub open spec fn fixed_feast(key: Seq<char>) -> Option<(Seq<char>, Color)> {
    if key == "01-01"@ {
        Some(("Circumcision of Our Lord"@, Color::White))
    } else if key == "01-06"@ {
        Some(("Epiphany of Our Lord"@, Color::White))
    } else if key == "02-02"@ {
        Some(("Purification of the B.V.M."@, Color::White))
    } else if key == "03-19"@ {
        Some(("St. Joseph, Spouse of the B.V.M."@, Color::White))
    } else if key == "03-25"@ {
        Some(("Annunciation of the B.V.M."@, Color::White))
    } else if key == "06-24"@ {
        Some(("Nativity of St. John the Baptist"@, Color::White))
    } else if key == "06-29"@ {
        Some(("Sts. Peter and Paul"@, Color::Red))
    } else if key == "08-06"@ {
        Some(("Transfiguration of Our Lord"@, Color::White))
    } else if key == "08-15"@ {
        Some(("Assumption of the B.V.M."@, Color::White))
    } else if key == "09-08"@ {
        Some(("Nativity of the B.V.M."@, Color::White))
    } else if key == "09-14"@ {
        Some(("Exaltation of the Holy Cross"@, Color::Red))
    } else if key == "09-29"@ {
        Some(("Dedication of St. Michael"@, Color::White))
    } else if key == "11-01"@ {
        Some(("All Saints"@, Color::White))
    } else if key == "11-02"@ {
        Some(("All Souls"@, Color::Black))
    } else if key == "12-08"@ {
        Some(("Immaculate Conception"@, Color::White))
    } else if key == "12-25"@ {
        Some(("Nativity of Our Lord"@, Color::White))
    } else {
        None
    }
}

/// The key of `date` in the calendar of fixed feasts.
pub fn sancti_key(date: Date) -> (key: String)
    ensures
        key@ == sancti_key_text(date),
{
    let mut key = two_digit_text(date.month as u64);
    key.append("-");
    let day = two_digit_text(date.day as u64);
    key.append(day.as_str());
    key
}

/// A feast with the given title and colour.
fn feast(title: &str, color: Color) -> (f: Option<FixedFeast>)
    ensures
        f is Some,
        f->0@ == (title@, color),
{
    Some(FixedFeast { title: String::from_str(title), color })
}

/// Looks the key of a day up in the table of the fixed feasts.
pub fn check_special_feast(sancti_key: &str) -> (found: Option<FixedFeast>)
    ensures
        found is Some <==> fixed_feast(sancti_key@) is Some,
        found is Some ==> found->0@ == fixed_feast(sancti_key@)->0,
{
    if same_text(sancti_key, "01-01") {
        feast("Circumcision of Our Lord", Color::White)
    } else if same_text(sancti_key, "01-06") {
        feast("Epiphany of Our Lord", Color::White)
    } else if same_text(sancti_key, "02-02") {
        feast("Purification of the B.V.M.", Color::White)
    } else if same_text(sancti_key, "03-19") {
        feast("St. Joseph, Spouse of the B.V.M.", Color::White)
    } else if same_text(sancti_key, "03-25") {
        feast("Annunciation of the B.V.M.", Color::White)
    } else if same_text(sancti_key, "06-24") {
        feast("Nativity of St. John the Baptist", Color::White)
    } else if same_text(sancti_key, "06-29") {
        feast("Sts. Peter and Paul", Color::Red)
    } else if same_text(sancti_key, "08-06") {
        feast("Transfiguration of Our Lord", Color::White)
    } else if same_text(sancti_key, "08-15") {
        feast("Assumption of the B.V.M.", Color::White)
    } else if same_text(sancti_key, "09-08") {
        feast("Nativity of the B.V.M.", Color::White)
    } else if same_text(sancti_key, "09-14") {
        feast("Exaltation of the Holy Cross", Color::Red)
    } else if same_text(sancti_key, "09-29") {
        feast("Dedication of St. Michael", Color::White)
    } else if same_text(sancti_key, "11-01") {
        feast("All Saints", Color::White)
    } else if same_text(sancti_key, "11-02") {
        feast("All Souls", Color::Black)
    } else if same_text(sancti_key, "12-08") {
        feast("Immaculate Conception", Color::White)
    } else if same_text(sancti_key, "12-25") {
        feast("Nativity of Our Lord", Color::White)
    } else {
        None
    }
}

} // verus!
