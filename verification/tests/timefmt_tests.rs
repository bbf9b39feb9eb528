//! Tests for timestamp formatting and its malformed-record error.
use paab_core::timefmt::{pretty_print_datetime, MalformedTimestamp};

#[test]
fn formats_hour_and_minute() {
    assert_eq!(
        pretty_print_datetime("2021-11-14T13:45:00+01:00"),
        Ok(String::from("13:45"))
    );
}

#[test]
fn formats_exactly_sixteen_characters() {
    assert_eq!(pretty_print_datetime("2021-11-14T13:45"), Ok(String::from("13:45")));
}

#[test]
fn short_timestamp_is_malformed_not_a_crash() {
    assert_eq!(pretty_print_datetime("2021-11-14T13:4"), Err(MalformedTimestamp));
    assert_eq!(pretty_print_datetime(""), Err(MalformedTimestamp));
    assert_eq!(pretty_print_datetime("13:45"), Err(MalformedTimestamp));
}
