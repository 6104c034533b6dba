use cal_helper::text::{decimal_text, ordinal, same_text, two_digit_text};

#[test]
fn ordinals() {
    assert_eq!(ordinal(1), "1st");
    assert_eq!(ordinal(2), "2nd");
    assert_eq!(ordinal(3), "3rd");
    assert_eq!(ordinal(4), "4th");
    assert_eq!(ordinal(0), "0th");
    assert_eq!(ordinal(10), "10th");
    assert_eq!(ordinal(11), "11th");
    assert_eq!(ordinal(12), "12th");
    assert_eq!(ordinal(13), "13th");
    assert_eq!(ordinal(21), "21th");
    assert_eq!(ordinal(22), "22th");
    assert_eq!(ordinal(23), "23th");
    assert_eq!(ordinal(27), "27th");
    assert_eq!(ordinal(101), "101th");
    assert_eq!(ordinal(u32::MAX), "4294967295th");
}

#[test]
fn numbers_in_decimal_digits() {
    assert_eq!(decimal_text(0), "0");
    assert_eq!(decimal_text(7), "7");
    assert_eq!(decimal_text(9), "9");
    assert_eq!(decimal_text(10), "10");
    assert_eq!(decimal_text(42), "42");
    assert_eq!(decimal_text(100), "100");
    assert_eq!(decimal_text(1234567890), "1234567890");
    assert_eq!(decimal_text(u64::MAX), "18446744073709551615");
    for n in 0..2000u64 {
        assert_eq!(decimal_text(n), format!("{n}"));
    }
}

#[test]
fn numbers_in_two_digits() {
    assert_eq!(two_digit_text(0), "00");
    assert_eq!(two_digit_text(1), "01");
    assert_eq!(two_digit_text(9), "09");
    assert_eq!(two_digit_text(10), "10");
    assert_eq!(two_digit_text(31), "31");
    assert_eq!(two_digit_text(99), "99");
    assert_eq!(two_digit_text(100), "100");
    for n in 0..300u64 {
        assert_eq!(two_digit_text(n), format!("{n:02}"));
    }
}

#[test]
fn texts_are_compared_by_their_characters() {
    assert!(same_text("", ""));
    assert!(same_text("01-06", "01-06"));
    assert!(!same_text("01-06", "01-07"));
    assert!(!same_text("01-06", "01-0"));
    assert!(!same_text("01-0", "01-06"));
    assert!(!same_text("11-06", "01-06"));
    assert!(same_text("Fête-Dieu", "Fête-Dieu"));
    assert!(!same_text("Fête", "Fete"));
    assert!(!same_text("é", "e\u{301}"));
}
