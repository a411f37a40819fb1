use actix_crud::decimal::{format_i64, parse_i64};

#[test]
fn parse_plain_and_signed_numbers() {
    assert_eq!(parse_i64("123"), Some(123));
    assert_eq!(parse_i64("-5"), Some(-5));
    assert_eq!(parse_i64("+7"), Some(7));
    assert_eq!(parse_i64("007"), Some(7));
    assert_eq!(parse_i64("-0"), Some(0));
}

#[test]
fn parse_refuses_what_is_not_a_number() {
    assert_eq!(parse_i64(""), None);
    assert_eq!(parse_i64("-"), None);
    assert_eq!(parse_i64("+"), None);
    assert_eq!(parse_i64("abc"), None);
    assert_eq!(parse_i64("12a"), None);
    assert_eq!(parse_i64(" 12"), None);
    assert_eq!(parse_i64("1-2"), None);
}

#[test]
fn parse_range_limits() {
    assert_eq!(parse_i64("9223372036854775807"), Some(i64::MAX));
    assert_eq!(parse_i64("9223372036854775808"), None);
    assert_eq!(parse_i64("-9223372036854775808"), Some(i64::MIN));
    assert_eq!(parse_i64("-9223372036854775809"), None);
    assert_eq!(parse_i64("99999999999999999999999x"), None);
}

#[test]
fn parse_agrees_with_std() {
    for s in ["0", "42", "-42", "+42", "", "x", "18446744073709551616", "-1x"] {
        assert_eq!(parse_i64(s), s.parse::<i64>().ok(), "{}", s);
    }
}

#[test]
fn format_numbers() {
    assert_eq!(format_i64(0), "0");
    assert_eq!(format_i64(7), "7");
    assert_eq!(format_i64(-1), "-1");
    assert_eq!(format_i64(1234567890), "1234567890");
    assert_eq!(format_i64(i64::MAX), i64::MAX.to_string());
    assert_eq!(format_i64(i64::MIN), i64::MIN.to_string());
}

#[test]
fn format_then_parse_round_trips() {
    for n in [0, 1, -1, 10, -10, 99, 100, i64::MAX, i64::MIN, 123456789] {
        assert_eq!(parse_i64(&format_i64(n)), Some(n));
    }
}
