use guessing_game::parse::{parse_decimal, parse_guess, ParseError};

#[test]
fn plain_number_is_read() {
    assert_eq!(parse_decimal("42"), Ok(42));
    assert_eq!(parse_decimal("0"), Ok(0));
    assert_eq!(parse_decimal("007"), Ok(7));
}

#[test]
fn plus_sign_is_accepted() {
    assert_eq!(parse_decimal("+15"), Ok(15));
    assert_eq!(parse_decimal("+"), Err(ParseError::InvalidDigit));
}

#[test]
fn largest_value_fits() {
    assert_eq!(parse_decimal("4294967295"), Ok(u32::MAX));
    assert_eq!(parse_decimal("4294967296"), Err(ParseError::Overflow));
    assert_eq!(parse_decimal("99999999999999999999"), Err(ParseError::Overflow));
}

#[test]
fn empty_text_is_empty() {
    assert_eq!(parse_decimal(""), Err(ParseError::Empty));
}

#[test]
fn non_digits_are_invalid() {
    assert_eq!(parse_decimal("abc"), Err(ParseError::InvalidDigit));
    assert_eq!(parse_decimal("-5"), Err(ParseError::InvalidDigit));
    assert_eq!(parse_decimal("4 2"), Err(ParseError::InvalidDigit));
    assert_eq!(parse_decimal("12x"), Err(ParseError::InvalidDigit));
    assert_eq!(parse_decimal("٣"), Err(ParseError::InvalidDigit));
}

#[test]
fn line_is_trimmed_before_reading() {
    assert_eq!(parse_guess("  42\n"), Ok(42));
    assert_eq!(parse_guess("\t7\r\n"), Ok(7));
    assert_eq!(parse_guess("\u{a0}8\u{2003}"), Ok(8));
}

#[test]
fn blank_lines_are_empty() {
    assert_eq!(parse_guess(""), Err(ParseError::Empty));
    assert_eq!(parse_guess("\n"), Err(ParseError::Empty));
    assert_eq!(parse_guess("   \t\r\n"), Err(ParseError::Empty));
}

#[test]
fn invalid_lines_are_rejected() {
    assert_eq!(parse_guess("abc\n"), Err(ParseError::InvalidDigit));
    assert_eq!(parse_guess("-5\n"), Err(ParseError::InvalidDigit));
    assert_eq!(parse_guess("x"), Err(ParseError::InvalidDigit));
}
