use symphoxy::scalar::{check_range, parse_u32_text, range_from_line, RangeError};

#[test]
fn bounds_are_inclusive() {
    assert_eq!(range_from_line("0\n", 1, 10), Err(RangeError::OutOfBounds));
    assert_eq!(range_from_line("11\n", 1, 10), Err(RangeError::OutOfBounds));
    assert_eq!(range_from_line("1\n", 1, 10), Ok(1));
    assert_eq!(range_from_line("10\n", 1, 10), Ok(10));
    assert_eq!(range_from_line("abc\n", 1, 10), Err(RangeError::NotANumber));
}

#[test]
fn line_is_trimmed_before_reading() {
    assert_eq!(range_from_line("  7 \r\n", 1, 10), Ok(7));
    assert_eq!(check_range(" 7", 1, 10), Err(RangeError::NotANumber));
}

#[test]
fn unsigned_number_forms() {
    assert_eq!(parse_u32_text("0"), Some(0));
    assert_eq!(parse_u32_text("+5"), Some(5));
    assert_eq!(parse_u32_text("007"), Some(7));
    assert_eq!(parse_u32_text("4294967295"), Some(u32::MAX));
    assert_eq!(parse_u32_text("4294967296"), None);
    assert_eq!(parse_u32_text("99999999999999999999"), None);
    assert_eq!(parse_u32_text("-1"), None);
    assert_eq!(parse_u32_text("-0"), None);
    assert_eq!(parse_u32_text("+"), None);
    assert_eq!(parse_u32_text(""), None);
    assert_eq!(parse_u32_text("1 2"), None);
    assert_eq!(parse_u32_text("12a"), None);
    assert_eq!(parse_u32_text("\u{661}"), None);
}

#[test]
fn reading_agrees_with_std() {
    let samples = [
        "0", "+5", "007", "4294967295", "4294967296", "-1", "+", "", "1 2", "12a", "++1", "+-1",
    ];
    for s in samples {
        assert_eq!(parse_u32_text(s), s.parse::<u32>().ok(), "{s}");
    }
}

#[test]
fn single_value_bounds() {
    assert_eq!(check_range("5", 5, 5), Ok(5));
    assert_eq!(check_range("4", 5, 5), Err(RangeError::OutOfBounds));
    assert_eq!(check_range("4294967295", 0, u32::MAX), Ok(u32::MAX));
}
