use my_device::parsers::{parse_duration, parse_marked, ParseDurationError, ValueError};

#[test]
fn seconds() {
    assert_eq!(parse_duration("5s"), Ok(5000));
}

#[test]
fn milliseconds_with_spaces() {
    assert_eq!(parse_duration("  250 ms  "), Ok(250));
}

#[test]
fn minutes() {
    assert_eq!(parse_duration("2m"), Ok(120_000));
}

#[test]
fn plus_sign() {
    assert_eq!(parse_duration("+7 s"), Ok(7000));
}

#[test]
fn largest_minutes_that_fit() {
    // u64::MAX / 60 minutes still fit in u64::MAX seconds
    assert_eq!(parse_duration("307445734561825860m"), Ok(307445734561825860u128 * 60_000));
    assert_eq!(parse_duration("18446744073709551615s"), Ok(18446744073709551615u128 * 1000));
    assert_eq!(parse_duration("18446744073709551615ms"), Ok(18446744073709551615u128));
}

#[test]
fn minutes_past_the_largest_duration() {
    assert_eq!(
        parse_duration("307445734561825861m"),
        Err(ParseDurationError::InvalidValue(ValueError::Overflow))
    );
    assert_eq!(
        parse_duration("18446744073709551615m"),
        Err(ParseDurationError::InvalidValue(ValueError::Overflow))
    );
}

fn marked(s: &str, letters: &[usize]) -> (Vec<char>, Vec<bool>) {
    let chars: Vec<char> = s.chars().collect();
    let marks = (0..chars.len()).map(|i| letters.contains(&i)).collect();
    (chars, marks)
}

#[test]
fn marked_seconds() {
    let (c, m) = marked("5s", &[1]);
    assert_eq!(parse_marked(&c, &m), Ok(5000));
}

#[test]
fn marked_without_letters_has_no_unit() {
    let (c, m) = marked("5s", &[]);
    assert_eq!(parse_marked(&c, &m), Err(ParseDurationError::InvalidFormat));
}

#[test]
fn marked_letter_ends_the_number() {
    // a character marked alphabetic ends the number even inside digits
    let (c, m) = marked("12ms", &[1, 2, 3]);
    assert_eq!(parse_marked(&c, &m), Err(ParseDurationError::InvalidFormat));
    let (c, m) = marked(" 2 m ", &[3]);
    assert_eq!(parse_marked(&c, &m), Ok(120_000));
}

#[test]
fn number_without_unit() {
    assert_eq!(parse_duration("5"), Err(ParseDurationError::InvalidFormat));
    assert_eq!(parse_duration(""), Err(ParseDurationError::InvalidFormat));
}

#[test]
fn unknown_unit() {
    assert_eq!(parse_duration("5x"), Err(ParseDurationError::InvalidFormat));
    assert_eq!(parse_duration("5 h"), Err(ParseDurationError::InvalidFormat));
    assert_eq!(parse_duration("5 s s"), Err(ParseDurationError::InvalidFormat));
}

#[test]
fn missing_number() {
    assert_eq!(parse_duration("s"), Err(ParseDurationError::InvalidValue(ValueError::Empty)));
}

#[test]
fn bad_digit() {
    assert_eq!(parse_duration("5.5s"), Err(ParseDurationError::InvalidValue(ValueError::InvalidDigit)));
    assert_eq!(parse_duration("-5s"), Err(ParseDurationError::InvalidValue(ValueError::InvalidDigit)));
    assert_eq!(parse_duration("+s"), Err(ParseDurationError::InvalidValue(ValueError::InvalidDigit)));
}

#[test]
fn too_large() {
    assert_eq!(
        parse_duration("18446744073709551616s"),
        Err(ParseDurationError::InvalidValue(ValueError::Overflow))
    );
}

#[test]
fn value_checked_before_unit() {
    assert_eq!(parse_duration("1.5 h"), Err(ParseDurationError::InvalidValue(ValueError::InvalidDigit)));
}

#[test]
fn unicode_white_space_trimmed() {
    assert_eq!(parse_duration("\u{3000}3\u{00A0}ms\u{2003}"), Ok(3));
}

#[test]
fn error_messages() {
    assert_eq!(ParseDurationError::InvalidFormat.message(), "invalid duration format");
    assert_eq!(
        ParseDurationError::InvalidValue(ValueError::Empty).message(),
        "invalid duration value: cannot parse integer from empty string"
    );
}
