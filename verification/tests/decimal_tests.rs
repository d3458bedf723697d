use authflow::decimal::{decimal_i32, decimal_i64, parse_i32};

#[test]
fn writes_decimal_text() {
    assert_eq!(decimal_i64(0), "0");
    assert_eq!(decimal_i64(7), "7");
    assert_eq!(decimal_i64(42), "42");
    assert_eq!(decimal_i64(-1), "-1");
    assert_eq!(decimal_i64(1000), "1000");
    assert_eq!(decimal_i64(i64::MAX), "9223372036854775807");
    assert_eq!(decimal_i64(i64::MIN), "-9223372036854775808");
    assert_eq!(decimal_i32(i32::MIN), "-2147483648");
    assert_eq!(decimal_i32(123456), "123456");
}

#[test]
fn decimal_matches_to_string() {
    for n in [-987654321i64, -10, -9, 0, 9, 10, 99, 100, 1_000_000_007, 4_611_686_018_427_387_904] {
        assert_eq!(decimal_i64(n), n.to_string());
    }
}

#[test]
fn parses_well_formed_ids() {
    assert_eq!(parse_i32("42"), Some(42));
    assert_eq!(parse_i32("+42"), Some(42));
    assert_eq!(parse_i32("-42"), Some(-42));
    assert_eq!(parse_i32("0"), Some(0));
    assert_eq!(parse_i32("-0"), Some(0));
    assert_eq!(parse_i32("0004"), Some(4));
    assert_eq!(parse_i32("2147483647"), Some(i32::MAX));
    assert_eq!(parse_i32("-2147483648"), Some(i32::MIN));
}

#[test]
fn refuses_malformed_ids() {
    for s in ["", "+", "-", "4a", " 42", "42 ", "--1", "+-1", "1.0", "٣", "0x10"] {
        assert_eq!(parse_i32(s), None, "{:?}", s);
        assert_eq!(parse_i32(s), s.parse::<i32>().ok(), "{:?}", s);
    }
}

#[test]
fn refuses_out_of_range_ids() {
    assert_eq!(parse_i32("2147483648"), None);
    assert_eq!(parse_i32("-2147483649"), None);
    assert_eq!(parse_i32("99999999999999999999"), None);
    assert_eq!(parse_i32("99999999999x"), None);
}

#[test]
fn parse_agrees_with_from_str() {
    for s in ["12", "-7", "+0", "00", "2147483646", "-2147483647", "1_0", "ab", "-", "+5x"] {
        assert_eq!(parse_i32(s), s.parse::<i32>().ok(), "{:?}", s);
    }
}

#[test]
fn decimal_roundtrip_on_ids() {
    for n in [i32::MIN, -2147483647, -100, -1, 0, 1, 9, 10, 65535, i32::MAX] {
        assert_eq!(parse_i32(&decimal_i32(n)), Some(n));
    }
}
