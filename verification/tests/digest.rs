use cal_helper::date::Date;
use cal_helper::resolve::resolve_day;

/// The FNV-1a digest of the five fields of every day from the first day of
/// `first_year` through the last day of `last_year`, each day as one line
/// with its fields separated by tabs.
fn digest(first_year: i32, last_year: i32) -> u64 {
    let mut hash: u64 = 0xcbf29ce484222325;
    for year in first_year..=last_year {
        for month in 1..=12u32 {
            for day in 1..=31u32 {
                if let Some(date) = Date::new(year, month, day) {
                    let fields = resolve_day(date).fields();
                    let line = format!(
                        "{}\t{}\t{}\t{}\t{}\n",
                        fields.0, fields.1, fields.2, fields.3, fields.4
                    );
                    for byte in line.bytes() {
                        hash ^= byte as u64;
                        hash = hash.wrapping_mul(0x100000001b3);
                    }
                }
            }
        }
    }
    hash
}

#[test]
fn the_days_from_1583_to_1699() {
    assert_eq!(digest(1583, 1699), 0x6324b3790a732f54);
}

#[test]
fn the_days_from_1700_to_1899() {
    assert_eq!(digest(1700, 1899), 0x7a28b5af90138d8e);
}

#[test]
fn the_days_from_1900_to_2099() {
    assert_eq!(digest(1900, 2099), 0x63aa17cdfdc0ca32);
}

#[test]
fn the_days_from_2100_to_2600() {
    assert_eq!(digest(2100, 2600), 0xc60011e2dcf81b85);
}
