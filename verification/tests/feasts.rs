use cal_helper::color::Color;
use cal_helper::date::Date;
use cal_helper::feasts::{check_special_feast, sancti_key};

#[test]
fn the_sixteen_fixed_feasts() {
    let table = [
        ("01-01", "Circumcision of Our Lord", Color::White),
        ("01-06", "Epiphany of Our Lord", Color::White),
        ("02-02", "Purification of the B.V.M.", Color::White),
        ("03-19", "St. Joseph, Spouse of the B.V.M.", Color::White),
        ("03-25", "Annunciation of the B.V.M.", Color::White),
        ("06-24", "Nativity of St. John the Baptist", Color::White),
        ("06-29", "Sts. Peter and Paul", Color::Red),
        ("08-06", "Transfiguration of Our Lord", Color::White),
        ("08-15", "Assumption of the B.V.M.", Color::White),
        ("09-08", "Nativity of the B.V.M.", Color::White),
        ("09-14", "Exaltation of the Holy Cross", Color::Red),
        ("09-29", "Dedication of St. Michael", Color::White),
        ("11-01", "All Saints", Color::White),
        ("11-02", "All Souls", Color::Black),
        ("12-08", "Immaculate Conception", Color::White),
        ("12-25", "Nativity of Our Lord", Color::White),
    ];
    for (key, title, color) in table {
        let feast = check_special_feast(key).unwrap();
        assert_eq!(feast.title, title);
        assert_eq!(feast.color, color);
    }
}

#[test]
fn no_other_day_is_a_fixed_feast() {
    let mut feasts = 0;
    for month in 1..=12u32 {
        for day in 1..=31u32 {
            if check_special_feast(&format!("{month:02}-{day:02}")).is_some() {
                feasts += 1;
            }
        }
    }
    assert_eq!(feasts, 16);
    assert!(check_special_feast("").is_none());
    assert!(check_special_feast("1-1").is_none());
    assert!(check_special_feast("01-1").is_none());
    assert!(check_special_feast("01-010").is_none());
    assert!(check_special_feast("01-01 ").is_none());
    assert!(check_special_feast("0101").is_none());
    assert!(check_special_feast("12-24").is_none());
    assert!(check_special_feast("2024-12-25").is_none());
}

#[test]
fn the_key_of_a_date_among_the_fixed_feasts() {
    assert_eq!(sancti_key(Date::new(2024, 1, 1).unwrap()), "01-01");
    assert_eq!(sancti_key(Date::new(2024, 2, 29).unwrap()), "02-29");
    assert_eq!(sancti_key(Date::new(1999, 9, 30).unwrap()), "09-30");
    assert_eq!(sancti_key(Date::new(-44, 10, 9).unwrap()), "10-09");
    assert_eq!(sancti_key(Date::new(2024, 12, 31).unwrap()), "12-31");
}

#[test]
fn the_names_of_the_colours() {
    assert_eq!(Color::White.name(), "white");
    assert_eq!(Color::Red.name(), "red");
    assert_eq!(Color::Black.name(), "black");
    assert_eq!(Color::Green.name(), "green");
    assert_eq!(Color::Violet.name(), "violet");
}
