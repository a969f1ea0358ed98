use trader_id::errors::InvalidReason;
use trader_id::identifier::{trader_id_hash, TraderId};

#[test]
fn test_string_reprs() {
    let trader_id = TraderId::new("TRADER-001").unwrap();
    assert_eq!(trader_id.to_string(), "TRADER-001");
    assert_eq!(format!("{}", trader_id.to_string()), "TRADER-001");
}

#[test]
fn test_debug_render_is_quoted() {
    let trader_id = TraderId::new("TRADER-001").unwrap();
    assert_eq!(trader_id.debug_string(), "\"TRADER-001\"");
}

#[test]
fn test_round_trip_valid_inputs() {
    for s in ["TRADER-001", "a-b", "-", " - ", "x-", "-x", "交易-001", "A--B"] {
        let id = TraderId::new(s).unwrap();
        assert_eq!(id.to_string(), s);
    }
}

#[test]
fn test_no_hyphen_rejected() {
    let r = TraderId::new("TRADER001");
    let e = r.err().unwrap();
    assert_eq!(e.reason, InvalidReason::MissingSubstring);
    assert_eq!(e.field_name, "`TraderId` value");
    assert_eq!(
        e.message(),
        "invalid string for `TraderId` value, did not contain the required substring"
    );
}

#[test]
fn test_empty_rejected_with_empty_reason() {
    let r = TraderId::new("");
    let e = r.err().unwrap();
    assert_eq!(e.reason, InvalidReason::Empty);
    assert_eq!(e.field_name, "`TraderId` value");
    assert_eq!(e.message(), "invalid string for `TraderId` value, was empty");
}

#[test]
fn test_whitespace_only_rejected() {
    for s in [" ", "   ", "\t", "\n\r ", "\u{00A0}\u{2003}"] {
        let e = TraderId::new(s).err().unwrap();
        assert_eq!(e.reason, InvalidReason::WhitespaceOnly);
        assert_eq!(e.message(), "invalid string for `TraderId` value, was all whitespace");
    }
}

#[test]
fn test_equal_text_equal_identifiers_and_hashes() {
    let a = TraderId::new("TRADER-001").unwrap();
    let b = TraderId::new("TRADER-001").unwrap();
    assert!(a == b);
    assert_eq!(trader_id_hash(&a), trader_id_hash(&b));

    let c = TraderId::new("TRADER-002").unwrap();
    assert!(a != c);
}

#[test]
fn test_ordering_lexicographic_and_transitive() {
    let a = TraderId::new("TRADER-001").unwrap();
    let b = TraderId::new("TRADER-002").unwrap();
    let c = TraderId::new("TRADER-010").unwrap();
    assert!(a < b);
    assert!(b < c);
    assert!(a < c);
    assert!(!(b < a));
    assert!(a <= a);
    assert_eq!(a.partial_cmp(&b), Some(std::cmp::Ordering::Less));
    assert_eq!(a.cmp(&b), std::cmp::Ordering::Less);
    assert_eq!(a.partial_cmp(&a), Some(std::cmp::Ordering::Equal));
    assert_eq!(c.cmp(&a), std::cmp::Ordering::Greater);

    let short = TraderId::new("TRADER-").unwrap();
    assert!(short < a);
}

#[test]
fn test_default_equals_new_trader_000() {
    let d = TraderId::default();
    assert!(d == TraderId::new("TRADER-000").unwrap());
    assert_eq!(d.to_string(), "TRADER-000");
    assert_eq!(trader_id_hash(&d), trader_id_hash(&TraderId::new("TRADER-000").unwrap()));
}

#[test]
fn test_copy_keeps_identity() {
    let a = TraderId::new("TRADER-001").unwrap();
    let b = a;
    assert!(a == b);
    assert_eq!(a.to_string(), b.to_string());
}
