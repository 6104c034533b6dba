use cal_helper::date::Date;
use cal_helper::resolve::{resolve_day, ResolvedDay, Source};

fn resolve(year: i32, month: u32, day: u32) -> ResolvedDay {
    resolve_day(Date::new(year, month, day).unwrap())
}

#[test]
fn ash_wednesday_2024() {
    let day = resolve(2024, 2, 14);
    assert_eq!(day.tempora_key, "Quadp3-3");
    assert_eq!(day.sancti_key, "02-14");
    assert_eq!(day.title, "Ash Wednesday");
    assert_eq!(day.color.name(), "violet");
    assert_eq!(day.source, Source::Tempora);
}

#[test]
fn easter_sunday_2024() {
    let day = resolve(2024, 3, 31);
    assert_eq!(day.tempora_key, "Pasc0-0");
    assert_eq!(day.sancti_key, "03-31");
    assert_eq!(day.title, "Easter Sunday");
    assert_eq!(day.color.name(), "white");
    assert_eq!(day.source.name(), "tempora");
}

#[test]
fn christmas_day_2024() {
    let day = resolve(2024, 12, 25);
    assert_eq!(day.sancti_key, "12-25");
    assert_eq!(day.title, "Nativity of Our Lord");
    assert_eq!(day.color.name(), "white");
    assert_eq!(day.source.name(), "sancti");
    // The season key is computed all the same: Christmas lies in the weeks
    // counted from the first Sunday of Advent, 1 December in 2024.
    assert_eq!(day.tempora_key, "Adv4-3");
}

#[test]
fn pentecost_2024() {
    let day = resolve(2024, 5, 19);
    assert_eq!(day.tempora_key, "Pasc7-0");
    assert_eq!(day.title, "Pentecost Sunday");
    // Pentecost is the fiftieth of the white days of Easter, and the white
    // rule is tried before the red one.
    assert_eq!(day.color.name(), "white");
    assert_eq!(day.source.name(), "tempora");
}

#[test]
fn trinity_sunday_2024() {
    let day = resolve(2024, 5, 26);
    assert_eq!(day.tempora_key, "Pent01-0");
    assert_eq!(day.title, "Trinity Sunday");
    assert_eq!(day.color.name(), "green");
    assert_eq!(day.source.name(), "tempora");
}

#[test]
fn circumcision_2024() {
    let day = resolve(2024, 1, 1);
    // 1 January is the eighth day of the octave of Christmas: the key is
    // `Nat1-0` followed at once by the 7 of the days gone since Christmas.
    assert!(day.tempora_key.starts_with("Nat1-0"));
    assert_eq!(day.tempora_key, "Nat1-07");
    assert_eq!(day.sancti_key, "01-01");
    assert_eq!(day.title, "Circumcision of Our Lord");
    assert_eq!(day.color.name(), "white");
    assert_eq!(day.source, Source::Sancti);
}

#[test]
fn the_five_fields_in_order() {
    let fields = resolve(2024, 2, 14).fields();
    assert_eq!(fields.0, "Quadp3-3");
    assert_eq!(fields.1, "02-14");
    assert_eq!(fields.2, "Ash Wednesday");
    assert_eq!(fields.3, "violet");
    assert_eq!(fields.4, "tempora");
    let fields = resolve(2024, 11, 2).fields();
    assert_eq!(fields.0, "Pent23-6");
    assert_eq!(fields.1, "11-02");
    assert_eq!(fields.2, "All Souls");
    assert_eq!(fields.3, "black");
    assert_eq!(fields.4, "sancti");
}

#[test]
fn days_after_pentecost_2024() {
    let monday = resolve(2024, 5, 20);
    assert_eq!(monday.tempora_key, "Pasc7-1");
    assert_eq!(monday.title, "Feria of 0th week after Pentecost");
    assert_eq!(monday.color.name(), "white");
    let saturday = resolve(2024, 5, 25);
    assert_eq!(saturday.tempora_key, "Pasc7-6");
    assert_eq!(saturday.color.name(), "white");
    let corpus_christi = resolve(2024, 5, 30);
    assert_eq!(corpus_christi.tempora_key, "Pent01-4");
    assert_eq!(corpus_christi.title, "Corpus Christi");
    assert_eq!(corpus_christi.color.name(), "green");
    let sacred_heart = resolve(2024, 6, 7);
    assert_eq!(sacred_heart.tempora_key, "Pent02-5");
    assert_eq!(sacred_heart.title, "Sacred Heart of Jesus");
    let late = resolve(2024, 11, 30);
    assert_eq!(late.tempora_key, "Pent27-6");
    assert_eq!(late.title, "Feria of 27th week after Pentecost");
    assert_eq!(late.color.name(), "green");
}

#[test]
fn days_of_advent_before_december() {
    // In 2022 the first Sunday of Advent is 27 November. The titles of
    // Advent are for days of December only, so these days fall back to
    // month and day.
    let sunday = resolve(2022, 11, 27);
    assert_eq!(sunday.tempora_key, "Adv1-0");
    assert_eq!(sunday.title, "November 27");
    assert_eq!(sunday.color.name(), "violet");
    let wednesday = resolve(2022, 11, 30);
    assert_eq!(wednesday.tempora_key, "Adv1-3");
    assert_eq!(wednesday.title, "November 30");
    let thursday = resolve(2022, 12, 1);
    assert_eq!(thursday.tempora_key, "Adv1-4");
    assert_eq!(thursday.title, "Feria of 1st week of Advent");
    let christmas = resolve(2022, 12, 25);
    assert_eq!(christmas.tempora_key, "Adv5-0");
    assert_eq!(christmas.title, "Nativity of Our Lord");
}

#[test]
fn days_around_epiphany() {
    // 2023: Epiphany on a Friday, the Sunday after it on 8 January.
    assert_eq!(resolve(2023, 1, 5).tempora_key, "Nat2-4");
    assert_eq!(resolve(2023, 1, 6).tempora_key, "Epi1-0a");
    assert_eq!(resolve(2023, 1, 7).tempora_key, "Epi1-6");
    assert_eq!(resolve(2023, 1, 7).title, "Feria of 1st week after Epiphany");
    assert_eq!(resolve(2023, 1, 8).tempora_key, "Epi1-0");
    assert_eq!(resolve(2023, 1, 8).title, "1st Sunday after Epiphany");
    assert_eq!(resolve(2023, 1, 15).tempora_key, "Epi2-0");
    assert_eq!(resolve(2023, 1, 15).title, "2nd Sunday after Epiphany");
    // 2019: Epiphany on a Sunday. The key counts from the Sunday after it,
    // the title from Epiphany itself.
    assert_eq!(resolve(2019, 1, 7).tempora_key, "Epi1-1");
    assert_eq!(resolve(2019, 1, 7).title, "Feria of 1st week after Epiphany");
    assert_eq!(resolve(2019, 1, 13).tempora_key, "Epi1-0");
    assert_eq!(resolve(2019, 1, 13).title, "2nd Sunday after Epiphany");
    assert_eq!(resolve(2019, 1, 14).tempora_key, "Epi1-1");
    assert_eq!(resolve(2019, 1, 14).title, "Feria of 2nd week after Epiphany");
}

#[test]
fn days_before_and_in_lent_2025() {
    // Easter 2025 is 20 April.
    assert_eq!(resolve(2025, 2, 16).tempora_key, "Quadp1-0");
    assert_eq!(resolve(2025, 2, 16).title, "Septuagesima Sunday");
    assert_eq!(resolve(2025, 2, 24).tempora_key, "Quadp2-1");
    assert_eq!(resolve(2025, 2, 24).title, "Feria of Sexagesima week");
    assert_eq!(resolve(2025, 3, 4).tempora_key, "Quadp3-2");
    assert_eq!(resolve(2025, 3, 4).title, "Feria of Quinquagesima week");
    assert_eq!(resolve(2025, 3, 5).tempora_key, "Quadp3-3");
    assert_eq!(resolve(2025, 3, 5).title, "Ash Wednesday");
    assert_eq!(resolve(2025, 3, 8).tempora_key, "Quadp3-6");
    assert_eq!(resolve(2025, 3, 8).title, "Feria after Ash Wednesday");
    assert_eq!(resolve(2025, 3, 9).tempora_key, "Quad1-0");
    assert_eq!(resolve(2025, 3, 9).title, "1st Sunday of Lent");
    assert_eq!(resolve(2025, 4, 2).tempora_key, "Quad4-3");
    assert_eq!(resolve(2025, 4, 2).title, "Feria of 4th week of Lent");
    assert_eq!(resolve(2025, 4, 6).tempora_key, "Quad5-0");
    assert_eq!(resolve(2025, 4, 6).title, "Passion Sunday");
    assert_eq!(resolve(2025, 4, 9).tempora_key, "Quad5-3");
    assert_eq!(resolve(2025, 4, 9).title, "Feria of Passion week");
    assert_eq!(resolve(2025, 4, 13).tempora_key, "Quad6-0");
    assert_eq!(resolve(2025, 4, 13).title, "Palm Sunday");
    assert_eq!(resolve(2025, 4, 15).tempora_key, "Quad6-2");
    assert_eq!(resolve(2025, 4, 15).title, "Tuesday of Holy Week");
    assert_eq!(resolve(2025, 4, 17).title, "Holy Thursday");
    assert_eq!(resolve(2025, 4, 18).title, "Good Friday");
    assert_eq!(resolve(2025, 4, 19).tempora_key, "Quad6-6");
    assert_eq!(resolve(2025, 4, 19).title, "Holy Saturday");
    assert_eq!(resolve(2025, 4, 19).color.name(), "violet");
}

#[test]
fn days_of_eastertide_2025() {
    assert_eq!(resolve(2025, 4, 20).tempora_key, "Pasc0-0");
    assert_eq!(resolve(2025, 4, 23).tempora_key, "Pasc0-3");
    assert_eq!(resolve(2025, 4, 23).title, "Wednesday in Easter Week");
    assert_eq!(resolve(2025, 4, 27).tempora_key, "Pasc1-0");
    assert_eq!(resolve(2025, 4, 27).title, "1st Sunday after Easter");
    assert_eq!(resolve(2025, 5, 13).tempora_key, "Pasc3-2");
    assert_eq!(resolve(2025, 5, 13).title, "Feria of 3rd week after Easter");
    assert_eq!(resolve(2025, 5, 29).tempora_key, "Pasc5-4");
    assert_eq!(resolve(2025, 5, 29).title, "Ascension of Our Lord");
    assert_eq!(resolve(2025, 6, 8).tempora_key, "Pasc7-0");
    assert_eq!(resolve(2025, 6, 8).title, "Pentecost Sunday");
    assert_eq!(resolve(2025, 6, 14).tempora_key, "Pasc7-6");
    assert_eq!(resolve(2025, 6, 14).color.name(), "white");
    assert_eq!(resolve(2025, 6, 15).tempora_key, "Pent01-0");
    assert_eq!(resolve(2025, 6, 15).color.name(), "green");
}

#[test]
fn fixed_feasts_keep_their_season_key() {
    let joseph = resolve(2024, 3, 19);
    assert_eq!(joseph.tempora_key, "Quad5-2");
    assert_eq!(joseph.title, "St. Joseph, Spouse of the B.V.M.");
    assert_eq!(joseph.color.name(), "white");
    assert_eq!(joseph.source.name(), "sancti");
    let peter_and_paul = resolve(2024, 6, 29);
    assert_eq!(peter_and_paul.tempora_key, "Pent05-6");
    assert_eq!(peter_and_paul.color.name(), "red");
    assert_eq!(peter_and_paul.source.name(), "sancti");
    let annunciation = resolve(2024, 3, 25);
    assert_eq!(annunciation.tempora_key, "Quad6-1");
    assert_eq!(annunciation.title, "Annunciation of the B.V.M.");
}

#[test]
fn years_far_from_ours() {
    // Year 10000 and a year before year 1: Easter is found all the same.
    let late = resolve(10000, 4, 16);
    assert_eq!(late.title, "Easter Sunday");
    assert_eq!(late.tempora_key, "Pasc0-0");
    let early = resolve(-4, 2, 29);
    assert_eq!(early.sancti_key, "02-29");
    assert_eq!(early.source.name(), "tempora");
    assert!(!early.tempora_key.starts_with("unknown-"));
}
