use price_estimator::digits::parse_value;

#[test]
fn empty_string_is_zero() {
    assert_eq!(parse_value(""), 0);
}

#[test]
fn non_digit_string_is_zero() {
    assert_eq!(parse_value("abc"), 0);
    assert_eq!(parse_value("12a"), 0);
    assert_eq!(parse_value("a12"), 0);
    assert_eq!(parse_value("-5"), 0);
    assert_eq!(parse_value(" 5"), 0);
}

#[test]
fn digit_strings_parse_in_base_10() {
    assert_eq!(parse_value("0"), 0);
    assert_eq!(parse_value("5"), 5);
    assert_eq!(parse_value("12"), 12);
    assert_eq!(parse_value("125"), 125);
    assert_eq!(parse_value("007"), 7);
}

#[test]
fn u32_boundary() {
    assert_eq!(parse_value("4294967295"), u32::MAX);
    assert_eq!(parse_value("4294967296"), 0);
    assert_eq!(parse_value("99999999999999999999"), 0);
}

#[test]
fn agrees_with_std_parse() {
    for s in ["", "0", "8", "20", "4294967295", "4294967296", "x1", "1x"] {
        assert_eq!(parse_value(s), s.parse::<u32>().unwrap_or(0));
    }
}
