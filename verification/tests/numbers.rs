use wiki::numbers::{parse_u64, push_decimal, to_decimal};

#[test]
fn to_decimal_values() {
    assert_eq!(to_decimal(0), "0");
    assert_eq!(to_decimal(7), "7");
    assert_eq!(to_decimal(10), "10");
    assert_eq!(to_decimal(1203), "1203");
    assert_eq!(to_decimal(u64::MAX), "18446744073709551615");
}

#[test]
fn to_decimal_agrees_with_std() {
    for n in [0u64, 1, 9, 10, 11, 99, 100, 101, 65535, 4294967296, u64::MAX - 1, u64::MAX] {
        assert_eq!(to_decimal(n), n.to_string());
    }
}

#[test]
fn push_decimal_appends() {
    let mut out = String::from("id=");
    push_decimal(&mut out, 250);
    assert_eq!(out, "id=250");
}

#[test]
fn parse_u64_accepts_digits() {
    assert_eq!(parse_u64("0"), Some(0));
    assert_eq!(parse_u64("42"), Some(42));
    assert_eq!(parse_u64("007"), Some(7));
    assert_eq!(parse_u64("+5"), Some(5));
    assert_eq!(parse_u64("18446744073709551615"), Some(u64::MAX));
    assert_eq!(parse_u64("000018446744073709551615"), Some(u64::MAX));
}

#[test]
fn parse_u64_rejects_the_rest() {
    assert_eq!(parse_u64(""), None);
    assert_eq!(parse_u64("+"), None);
    assert_eq!(parse_u64("-1"), None);
    assert_eq!(parse_u64("-0"), None);
    assert_eq!(parse_u64("++1"), None);
    assert_eq!(parse_u64("abc"), None);
    assert_eq!(parse_u64("12a"), None);
    assert_eq!(parse_u64(" 1"), None);
    assert_eq!(parse_u64("1 "), None);
    assert_eq!(parse_u64("1.5"), None);
    assert_eq!(parse_u64("٣"), None);
    assert_eq!(parse_u64("18446744073709551616"), None);
    assert_eq!(parse_u64("99999999999999999999999"), None);
    assert_eq!(parse_u64("18446744073709551616x"), None);
}

#[test]
fn parse_u64_agrees_with_std() {
    for text in ["", "+", "-", "0", "+0", "-0", "1", "+1", "0010", "12345678901234567890",
        "18446744073709551615", "18446744073709551616", "184467440737095516150", "1_000", "0x10", "１２"]
    {
        assert_eq!(parse_u64(text), text.parse::<u64>().ok(), "on {:?}", text);
    }
}

#[test]
fn parse_u64_reads_back_to_decimal() {
    for n in [0u64, 5, 10, 999, 1 << 40, u64::MAX] {
        assert_eq!(parse_u64(&to_decimal(n)), Some(n));
    }
}
