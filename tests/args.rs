use link_local_address::args::{parse_duration_ms, parse_duration_s, DurationError};

#[test]
fn durations_in_milliseconds() {
    assert_eq!(parse_duration_ms("500"), Ok(500));
    assert_eq!(parse_duration_ms("+7"), Ok(7));
    assert_eq!(parse_duration_ms("0"), Ok(0));
    assert_eq!(parse_duration_ms("18446744073709551615"), Ok(u64::MAX));
    assert_eq!(parse_duration_ms("18446744073709551616"), Err(DurationError::NotANumber));
    assert_eq!(parse_duration_ms(""), Err(DurationError::NotANumber));
    assert_eq!(parse_duration_ms("-1"), Err(DurationError::NotANumber));
    assert_eq!(parse_duration_ms(" 5"), Err(DurationError::NotANumber));
    assert_eq!(parse_duration_ms("1.5"), Err(DurationError::NotANumber));
}

#[test]
fn durations_in_seconds() {
    assert_eq!(parse_duration_s("60"), Ok(60_000));
    assert_eq!(parse_duration_s("18446744073709551"), Ok(18446744073709551000));
    assert_eq!(parse_duration_s("18446744073709552"), Err(DurationError::TooLong));
    assert_eq!(parse_duration_s("sixty"), Err(DurationError::NotANumber));
}
