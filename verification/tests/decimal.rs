use kv_derive::decimal::{format_signed, format_unsigned, parse_signed, parse_unsigned};
use kv_derive::error::IntErrorKind;

#[test]
fn format_unsigned_matches_std() {
    for v in [0u128, 1, 9, 10, 11, 99, 100, 12345, u64::MAX as u128, u128::MAX] {
        assert_eq!(format_unsigned(v), v.to_string());
    }
}

#[test]
fn format_signed_matches_std() {
    for v in [0i128, 1, -1, 9, -9, 10, -10, 42, -42, i64::MIN as i128, i128::MAX, i128::MIN] {
        assert_eq!(format_signed(v), v.to_string());
    }
}

#[test]
fn parse_unsigned_reads_digits() {
    assert_eq!(parse_unsigned("0", 255), Ok(0));
    assert_eq!(parse_unsigned("255", 255), Ok(255));
    assert_eq!(parse_unsigned("+7", 255), Ok(7));
    assert_eq!(parse_unsigned("007", 255), Ok(7));
    assert_eq!(parse_unsigned("256", 255), Err(IntErrorKind::PosOverflow));
    assert_eq!(parse_unsigned("", 255), Err(IntErrorKind::Empty));
    assert_eq!(parse_unsigned("+", 255), Err(IntErrorKind::InvalidDigit));
    assert_eq!(parse_unsigned("-", 255), Err(IntErrorKind::InvalidDigit));
    assert_eq!(parse_unsigned("-1", 255), Err(IntErrorKind::InvalidDigit));
    assert_eq!(parse_unsigned("1 ", 255), Err(IntErrorKind::InvalidDigit));
}

#[test]
fn parse_signed_reads_digits() {
    assert_eq!(parse_signed("-128", -128, 127), Ok(-128));
    assert_eq!(parse_signed("127", -128, 127), Ok(127));
    assert_eq!(parse_signed("+127", -128, 127), Ok(127));
    assert_eq!(parse_signed("128", -128, 127), Err(IntErrorKind::PosOverflow));
    assert_eq!(parse_signed("-129", -128, 127), Err(IntErrorKind::NegOverflow));
    assert_eq!(parse_signed("-", -128, 127), Err(IntErrorKind::InvalidDigit));
    assert_eq!(parse_signed("--1", -128, 127), Err(IntErrorKind::InvalidDigit));
}
