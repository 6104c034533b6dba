use cal_helper::boundaries::boundaries;
use cal_helper::date::{Date, Weekday};
use cal_helper::easter::easter;
use cal_helper::resolve::resolve_day;
use cal_helper::tempora::{classify, compute_tempora_key, Season};
use chrono::{Datelike, NaiveDate};

fn days_of_year(year: i32) -> Vec<Date> {
    let mut days = Vec::new();
    for month in 1..=12u32 {
        for day in 1..=31u32 {
            if let Some(date) = Date::new(year, month, day) {
                days.push(date);
            }
        }
    }
    days
}

#[test]
fn easter_is_a_sunday_from_1800_to_2200() {
    for year in 1800..=2200 {
        let date = easter(year);
        let day = NaiveDate::from_ymd_opt(date.year, date.month, date.day).unwrap();
        assert_eq!(day.weekday(), chrono::Weekday::Sun, "Easter of {year}");
        assert_eq!(date.year, year);
    }
}

#[test]
fn easter_is_a_sunday_in_every_age() {
    for year in (-262143..=262142).step_by(997) {
        let date = easter(year);
        let day = NaiveDate::from_ymd_opt(date.year, date.month, date.day).unwrap();
        assert_eq!(day.weekday(), chrono::Weekday::Sun, "Easter of {year}");
    }
    for year in [-262143, -401, -400, -101, -100, -5, -4, -1, 0, 1, 262142] {
        let date = easter(year);
        let day = NaiveDate::from_ymd_opt(date.year, date.month, date.day).unwrap();
        assert_eq!(day.weekday(), chrono::Weekday::Sun, "Easter of {year}");
    }
}

#[test]
fn easter_lies_between_22_march_and_25_april() {
    for year in 1583..=4100 {
        let date = easter(year);
        assert!(
            (date.month == 3 && date.day >= 22) || (date.month == 4 && date.day <= 25),
            "Easter of {year}"
        );
    }
}

#[test]
fn easter_of_known_years() {
    let known = [
        (1818, 3, 22),
        (1900, 4, 15),
        (1943, 4, 25),
        (1954, 4, 18),
        (1961, 4, 2),
        (1981, 4, 19),
        (2000, 4, 23),
        (2019, 4, 21),
        (2022, 4, 17),
        (2024, 3, 31),
        (2025, 4, 20),
        (2038, 4, 25),
        (2100, 3, 28),
        (2285, 3, 22),
        (0, 4, 9),
        (-1, 4, 18),
        (-4, 3, 24),
        (10000, 4, 16),
    ];
    for (year, month, day) in known {
        assert_eq!(easter(year), Date { year, month, day });
    }
}

#[test]
fn every_day_lies_in_a_season() {
    for year in [1583, 1818, 1900, 1943, 2000, 2019, 2022, 2023, 2024, 2025, 2038, 2285] {
        let b = boundaries(year);
        for date in days_of_year(year) {
            assert!(classify(date, year, &b).is_some(), "{date:?}");
            let key = compute_tempora_key(date, year, &b);
            assert!(!key.starts_with("unknown-"), "{date:?}");
            assert_eq!(resolve_day(date).tempora_key, key);
        }
    }
}

#[test]
fn every_day_lies_in_a_season_in_other_ages() {
    for year in [-262142, -1000, -4, -1, 0, 1, 4, 9999, 10000, 262142] {
        for date in days_of_year(year) {
            let resolved = resolve_day(date);
            assert!(!resolved.tempora_key.starts_with("unknown-"), "{date:?}");
        }
    }
}

#[test]
fn the_seasons_follow_one_another() {
    let order = [
        Season::ChristmasOctave,
        Season::BeforeEpiphany,
        Season::Epiphany,
        Season::AfterEpiphany,
        Season::Septuagesima,
        Season::Lent,
        Season::Passiontide,
        Season::HolyWeek,
        Season::EasterWeek,
        Season::Eastertide,
        Season::AfterPentecost,
        Season::Advent,
    ];
    for year in 1990..=2040 {
        let b = boundaries(year);
        let mut at = 0;
        for date in days_of_year(year) {
            let season = classify(date, year, &b).unwrap();
            if season != order[at] {
                at += 1;
                assert_eq!(season, order[at], "{date:?}");
            }
        }
        assert_eq!(at, order.len() - 1);
    }
}

#[test]
fn the_sancti_key_is_month_and_day() {
    for year in [1999, 2024] {
        for date in days_of_year(year) {
            let resolved = resolve_day(date);
            assert_eq!(resolved.sancti_key, format!("{:02}-{:02}", date.month, date.day));
            assert_eq!(resolved.sancti_key.len(), 5);
        }
    }
}

#[test]
fn resolving_twice_gives_the_same() {
    for year in [2023, 2024] {
        for date in days_of_year(year) {
            let first = resolve_day(date);
            let second = resolve_day(date);
            assert_eq!(first.tempora_key, second.tempora_key);
            assert_eq!(first.sancti_key, second.sancti_key);
            assert_eq!(first.title, second.title);
            assert_eq!(first.color, second.color);
            assert_eq!(first.source, second.source);
        }
    }
}

#[test]
fn the_boundaries_fall_on_their_weekdays() {
    for year in 1900..=2100 {
        let b = boundaries(year);
        let weekday = |date: Date| {
            NaiveDate::from_ymd_opt(date.year, date.month, date.day).unwrap().weekday()
        };
        assert_eq!(weekday(b.septuagesima), chrono::Weekday::Sun);
        assert_eq!(weekday(b.ash_wednesday), chrono::Weekday::Wed);
        assert_eq!(weekday(b.passion_sunday), chrono::Weekday::Sun);
        assert_eq!(weekday(b.palm_sunday), chrono::Weekday::Sun);
        assert_eq!(weekday(b.easter), chrono::Weekday::Sun);
        assert_eq!(weekday(b.ascension), chrono::Weekday::Thu);
        assert_eq!(weekday(b.pentecost), chrono::Weekday::Sun);
        assert_eq!(weekday(b.corpus_christi), chrono::Weekday::Thu);
        assert_eq!(weekday(b.sacred_heart), chrono::Weekday::Fri);
        assert_eq!(weekday(b.advent1), chrono::Weekday::Sun);
        assert!(
            (b.advent1.month == 11 && b.advent1.day >= 27)
                || (b.advent1.month == 12 && b.advent1.day <= 3)
        );
    }
}

#[test]
fn weekday_numbers_run_from_sunday() {
    assert_eq!(Weekday::Sunday.number(), 0);
    assert_eq!(Weekday::Monday.number(), 1);
    assert_eq!(Weekday::Tuesday.number(), 2);
    assert_eq!(Weekday::Wednesday.number(), 3);
    assert_eq!(Weekday::Thursday.number(), 4);
    assert_eq!(Weekday::Friday.number(), 5);
    assert_eq!(Weekday::Saturday.number(), 6);
}
