//! Resolution of a calendar date to the identifiers of its traditional
//! liturgical Mass: the season ("tempora") key, the fixed-feast ("sancti")
//! key, a title, a liturgical colour and which of the two calendars governs.
//!
//! [`resolve::resolve_day`] resolves a [`date::Date`]. It finds the Easter of
//! the year ([`easter`]), derives the boundaries of the seasons from it
//! ([`boundaries`]), looks the day up among the fixed feasts ([`feasts`]) and
//! places it among the boundaries for its season key ([`tempora`]), its title
//! ([`title`]) and its colour ([`color`]). The day arithmetic is chrono's
//! ([`calendar`]); the rules are stated over the day numbers of the
//! proleptic Gregorian calendar.

pub mod boundaries;
pub mod calendar;
pub mod color;
pub mod date;
pub mod easter;
pub mod feasts;
pub mod resolve;
pub mod tempora;
pub mod text;
pub mod title;
