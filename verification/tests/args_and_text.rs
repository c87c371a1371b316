use twitch_dashboard::args::{parse_duration, ParseSecondsError};
use twitch_dashboard::text::join_lines;

#[test]
fn parse_duration_reads_whole_seconds() {
    assert_eq!(parse_duration("1").unwrap(), 1);
    assert_eq!(parse_duration("30").unwrap(), 30);
    assert_eq!(parse_duration("+7").unwrap(), 7);
    assert_eq!(parse_duration("0").unwrap(), 0);
    assert_eq!(parse_duration("18446744073709551615").unwrap(), u64::MAX);
}

#[test]
fn parse_duration_refuses_other_text() {
    assert!(parse_duration("").is_err());
    assert!(parse_duration("+").is_err());
    assert!(parse_duration("-1").is_err());
    assert!(parse_duration(" 1").is_err());
    assert!(parse_duration("1s").is_err());
    assert!(parse_duration("1.5").is_err());
    assert!(parse_duration("18446744073709551616").is_err());
}

#[test]
fn parse_duration_tells_why() {
    assert_eq!(parse_duration(""), Err(ParseSecondsError::Empty));
    assert_eq!(parse_duration("+"), Err(ParseSecondsError::InvalidDigit));
    assert_eq!(parse_duration("-"), Err(ParseSecondsError::InvalidDigit));
    assert_eq!(parse_duration("-1"), Err(ParseSecondsError::InvalidDigit));
    assert_eq!(parse_duration(" 1"), Err(ParseSecondsError::InvalidDigit));
    assert_eq!(parse_duration("1s"), Err(ParseSecondsError::InvalidDigit));
    assert_eq!(parse_duration("９"), Err(ParseSecondsError::InvalidDigit));
    assert_eq!(parse_duration("18446744073709551616"), Err(ParseSecondsError::PosOverflow));
    assert_eq!(parse_duration("+99999999999999999999999"), Err(ParseSecondsError::PosOverflow));
    for long in ["x12345678901234567890", "12345678901234567890x", "123456789012345678901234 ", "1234567890-1234567890"] {
        let kind = parse_duration(long).unwrap_err();
        assert!(kind == ParseSecondsError::InvalidDigit || kind == ParseSecondsError::PosOverflow);
    }
    assert_eq!(parse_duration("x12345678901234567890"), Err(ParseSecondsError::InvalidDigit));
}

#[test]
fn join_lines_puts_newlines_between() {
    let none: Vec<String> = vec![];
    assert_eq!(join_lines(&none), "");
    assert_eq!(join_lines(&vec!["a".to_string()]), "a");
    assert_eq!(
        join_lines(&vec!["a".to_string(), "".to_string(), "b c".to_string()]),
        "a\n\nb c"
    );
}
