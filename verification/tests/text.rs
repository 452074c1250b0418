use konsoleat::text::{decimal_text, parse_all, starts_with};
use std::num::IntErrorKind;

fn strings(list: &[&str]) -> Vec<String> {
    list.iter().map(|s| s.to_string()).collect()
}

#[test]
fn decimal_text_writes_what_std_writes() {
    for i in [0, 1, 9, 10, 99, 100, 12345, -1, -9, -10, -12345, i32::MAX, i32::MIN] {
        assert_eq!(decimal_text(i), i.to_string());
    }
    assert_eq!(decimal_text(i32::MIN), "-2147483648");
}

#[test]
fn decimal_text_is_read_back() {
    let ids = vec![0, 7, -7, 2147483647, -2147483648];
    let texts = ids.iter().map(|i| decimal_text(*i)).collect();
    assert_eq!(parse_all(texts).unwrap(), ids);
}

#[test]
fn different_integers_are_written_differently() {
    assert_ne!(decimal_text(1), decimal_text(-1));
    assert_ne!(decimal_text(1), decimal_text(10));
}

#[test]
fn parse_all_reads_signs_and_leading_zeros() {
    assert_eq!(parse_all(strings(&["+5", "-0", "007", "-2147483648"])).unwrap(), vec![5, 0, 7, i32::MIN]);
    assert_eq!(parse_all(Vec::new()).unwrap(), Vec::<i32>::new());
}

#[test]
fn parse_all_stops_at_the_first_text_that_is_no_integer() {
    for bad in ["", "+", "-", "x", "1 ", " 1", "1_0", "+-1", "2147483648", "-2147483649", "99999999999999999999"] {
        let e = parse_all(strings(&["1", bad, "also bad"])).unwrap_err();
        assert_eq!(e.input, bad);
        assert_eq!(e.source, bad.parse::<i32>().unwrap_err());
    }
}

#[test]
fn starts_with_compares_characters() {
    assert!(starts_with("org.kde.konsole-1", "org.kde.konsole"));
    assert!(starts_with("org.kde.konsole", "org.kde.konsole"));
    assert!(!starts_with("org.kde.konsol", "org.kde.konsole"));
    assert!(!starts_with("com.kde.konsole", "org.kde.konsole"));
    assert!(starts_with("żółw", "żó"));
    assert!(!starts_with("żólw", "żół"));
    assert!(starts_with("", ""));
}

#[test]
fn the_error_of_an_unparsed_text_is_its_own() {
    let kind = |list: &[&str]| parse_all(strings(list)).unwrap_err().source.kind().clone();
    assert_eq!(kind(&["1", ""]), IntErrorKind::Empty);
    assert_eq!(kind(&["1", "x", ""]), IntErrorKind::InvalidDigit);
    assert_eq!(kind(&["2147483648"]), IntErrorKind::PosOverflow);
    assert_eq!(kind(&["-2147483649"]), IntErrorKind::NegOverflow);
}
