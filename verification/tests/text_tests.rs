//! Tests for the verified text helpers.
use paab_core::text::{parse_retard, str_eq};

#[test]
fn parse_simple_values() {
    assert_eq!(parse_retard("0"), Some(0));
    assert_eq!(parse_retard("5"), Some(5));
    assert_eq!(parse_retard("12"), Some(12));
    assert_eq!(parse_retard("480"), Some(480));
}

#[test]
fn parse_leading_zeros() {
    assert_eq!(parse_retard("003"), Some(3));
    assert_eq!(parse_retard("00"), Some(0));
}

#[test]
fn parse_rejects_empty() {
    assert_eq!(parse_retard(""), None);
}

#[test]
fn parse_rejects_non_digits() {
    assert_eq!(parse_retard("abc"), None);
    assert_eq!(parse_retard("1a"), None);
    assert_eq!(parse_retard(" 1"), None);
    assert_eq!(parse_retard("+1"), None);
}

#[test]
fn parse_rejects_negative() {
    assert_eq!(parse_retard("-4"), None);
}

#[test]
fn parse_limits() {
    assert_eq!(parse_retard("4294967295"), Some(u32::MAX));
    assert_eq!(parse_retard("4294967296"), None);
    assert_eq!(parse_retard("99999999999999999999"), None);
}

#[test]
fn str_eq_agrees_with_equality() {
    assert!(str_eq("", ""));
    assert!(str_eq("outage", "outage"));
    assert!(!str_eq("outage", "driven"));
    assert!(!str_eq("1", "11"));
    assert!(!str_eq("Zürich", "Zurich"));
    assert!(str_eq("Zürich", "Zürich"));
}
