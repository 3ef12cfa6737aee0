use pomodoro::duration::{parse_count, parse_duration, parse_lowered, parse_text, parse_with_unit, ConfigValue, DurationError};

fn text(s: &str) -> Result<u64, DurationError> {
    parse_duration(&ConfigValue::Text(s.to_string()))
}

#[test]
fn hours_minutes_seconds() {
    assert_eq!(text("1 h"), Ok(3600));
    assert_eq!(text("2 m"), Ok(120));
    assert_eq!(text("30 s"), Ok(30));
}

#[test]
fn bare_count_is_seconds() {
    assert_eq!(text("45"), Ok(45));
    assert_eq!(text("0"), Ok(0));
}

#[test]
fn integer_is_seconds() {
    assert_eq!(parse_duration(&ConfigValue::Integer(25)), Ok(25));
    assert_eq!(parse_duration(&ConfigValue::Integer(0)), Ok(0));
}

#[test]
fn negative_integer_is_out_of_range() {
    assert_eq!(parse_duration(&ConfigValue::Integer(-1)), Err(DurationError::OutOfRange));
}

#[test]
fn other_value_is_wrong_type() {
    assert_eq!(parse_duration(&ConfigValue::Other), Err(DurationError::WrongType));
}

#[test]
fn unsupported_unit_fails() {
    assert_eq!(text("3 x"), Err(DurationError::UnsupportedUnit));
    assert_eq!(text("abc x"), Err(DurationError::UnsupportedUnit));
}

#[test]
fn bad_number_fails() {
    assert_eq!(text("abc"), Err(DurationError::InvalidNumber));
    assert_eq!(text("x h"), Err(DurationError::InvalidNumber));
    assert_eq!(text(""), Err(DurationError::InvalidNumber));
    assert_eq!(text("-5"), Err(DurationError::InvalidNumber));
    assert_eq!(text("1.5 s"), Err(DurationError::InvalidNumber));
}

#[test]
fn upper_case_is_read_as_lower() {
    assert_eq!(parse_text("1 H"), Ok(3600));
    assert_eq!(parse_text("2 M"), Ok(120));
    assert_eq!(parse_lowered("1 H"), Err(DurationError::UnsupportedUnit));
}

#[test]
fn unit_is_trimmed() {
    assert_eq!(parse_text("2 m  "), Ok(120));
    assert_eq!(parse_text("2  m"), Ok(120));
}

#[test]
fn scaled_overflow_is_out_of_range() {
    assert_eq!(text("18446744073709551615 s"), Ok(u64::MAX));
    assert_eq!(text("18446744073709551615 m"), Err(DurationError::OutOfRange));
    assert_eq!(text("5124095576030431 h"), Ok(5124095576030431 * 3600));
    assert_eq!(text("5124095576030432 h"), Err(DurationError::OutOfRange));
}

#[test]
fn count_parsing() {
    assert_eq!(parse_count("0"), Some(0));
    assert_eq!(parse_count("+7"), Some(7));
    assert_eq!(parse_count("+"), None);
    assert_eq!(parse_count(""), None);
    assert_eq!(parse_count("12a"), None);
    assert_eq!(parse_count("18446744073709551615"), Some(u64::MAX));
    assert_eq!(parse_count("18446744073709551616"), None);
    assert_eq!(parse_count("99999999999999999999x"), None);
}

#[test]
fn count_and_unit_apart() {
    assert_eq!(parse_with_unit("5", "m"), Ok(300));
    assert_eq!(parse_with_unit("5", "hh"), Err(DurationError::UnsupportedUnit));
    assert_eq!(parse_with_unit("q", "s"), Err(DurationError::InvalidNumber));
}
