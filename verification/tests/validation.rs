use trader_id::errors::InvalidReason;
use trader_id::validate::{string_contains, valid_string};

#[test]
fn test_valid_string_accepts_ordinary_text() {
    assert!(valid_string("TRADER-001", "field").is_ok());
    assert!(valid_string("x", "field").is_ok());
    assert!(valid_string(" x ", "field").is_ok());
}

#[test]
fn test_valid_string_rejects_empty() {
    let e = valid_string("", "field").err().unwrap();
    assert_eq!(e.reason, InvalidReason::Empty);
    assert_eq!(e.field_name, "field");
    assert_eq!(e.message(), "invalid string for field, was empty");
}

#[test]
fn test_valid_string_rejects_all_whitespace() {
    let e = valid_string(" \t\n", "field").err().unwrap();
    assert_eq!(e.reason, InvalidReason::WhitespaceOnly);
}

#[test]
fn test_string_contains_finds_substring() {
    assert!(string_contains("hello", "ell", "field").is_ok());
    assert!(string_contains("hello", "hello", "field").is_ok());
    assert!(string_contains("hello", "", "field").is_ok());
    assert!(string_contains("hello", "o", "field").is_ok());
    assert!(string_contains("TRADER-001", "-", "field").is_ok());
}

#[test]
fn test_string_contains_reports_missing_substring() {
    let e = string_contains("hello", "xyz", "field").err().unwrap();
    assert_eq!(e.reason, InvalidReason::MissingSubstring);
    assert_eq!(
        e.message(),
        "invalid string for field, did not contain the required substring"
    );
    assert!(string_contains("hello", "hellohello", "field").is_err());
    assert!(string_contains("abc", "acb", "field").is_err());
    assert!(string_contains("", "x", "field").is_err());
}
