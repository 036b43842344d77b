//! Fixed-layout date and date-time parsing, including calendar validity.

use omnistat::datetime::{parse_iso8601, parse_iso8601_date, parse_iso8601_datetime,
    parse_local_date, parse_local_stamp};
use omnistat::error::IntegrationError;

#[test]
fn parses_a_valid_datetime() {
    let st = parse_local_stamp("2024-06-15T12:30").expect("valid stamp");
    assert_eq!(st.year, 2024);
    assert_eq!(st.month, 6);
    assert_eq!(st.day, 15);
    assert_eq!(st.hour, 12);
    assert_eq!(st.minute, 30);
}

#[test]
fn parses_a_valid_date() {
    let d = parse_local_date("1999-12-31").expect("valid date");
    assert_eq!(d.year, 1999);
    assert_eq!(d.month, 12);
    assert_eq!(d.day, 31);
}

#[test]
fn leap_years_follow_the_gregorian_rule() {
    assert!(parse_local_date("2024-02-29").is_some());
    assert!(parse_local_date("2023-02-29").is_none());
    assert!(parse_local_date("1900-02-29").is_none());
    assert!(parse_local_date("2000-02-29").is_some());
}

#[test]
fn rejects_malformed_shapes() {
    assert!(parse_local_stamp("2024-06-15 12:30").is_none());
    assert!(parse_local_stamp("2024-06-15T12:30:00").is_none());
    assert!(parse_local_stamp("24-06-15T12:30").is_none());
    assert!(parse_local_stamp("").is_none());
    assert!(parse_local_stamp("2024-06-15T12:3x").is_none());
    assert!(parse_local_date("2024/06/15").is_none());
    assert!(parse_local_date("2024-6-15").is_none());
}

#[test]
fn rejects_out_of_range_components() {
    assert!(parse_local_stamp("2024-13-01T00:00").is_none());
    assert!(parse_local_stamp("2024-00-01T00:00").is_none());
    assert!(parse_local_stamp("2024-04-31T00:00").is_none());
    assert!(parse_local_stamp("2024-06-00T00:00").is_none());
    assert!(parse_local_stamp("2024-06-15T24:00").is_none());
    assert!(parse_local_stamp("2024-06-15T12:60").is_none());
}

#[test]
fn iso_entry_points_report_the_offending_string() {
    assert!(parse_iso8601_datetime("2024-06-15T12:30").is_ok());
    assert!(parse_iso8601("2024-06-15T12:30").is_ok());
    assert!(parse_iso8601_date("2024-06-15").is_ok());
    match parse_iso8601_datetime("not-a-time") {
        Err(IntegrationError::MalformedTimestamp(s)) => assert_eq!(s, "not-a-time"),
        other => panic!("expected a malformed-timestamp error, got {:?}", other),
    }
    match parse_iso8601_date("not-a-date!!") {
        Err(IntegrationError::MalformedTimestamp(s)) => assert_eq!(s, "not-a-date!!"),
        other => panic!("expected a malformed-timestamp error, got {:?}", other),
    }
}
