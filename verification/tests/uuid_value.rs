use glean_core::uuid_value::{is_canonical_uuid_str, UuidValue};

#[test]
fn canonical_form_is_accepted() {
    assert!(is_canonical_uuid_str("550e8400-e29b-41d4-a716-446655440000"));
    let u = UuidValue::from_string(String::from("550e8400-e29b-41d4-a716-446655440000")).unwrap();
    assert_eq!(u.as_str(), "550e8400-e29b-41d4-a716-446655440000");
}

#[test]
fn uppercase_digits_are_rejected() {
    assert!(!is_canonical_uuid_str("550E8400-E29B-41D4-A716-446655440000"));
    assert!(UuidValue::from_string(String::from("550E8400-E29B-41D4-A716-446655440000")).is_none());
}

#[test]
fn wrong_length_is_rejected() {
    assert!(!is_canonical_uuid_str(""));
    assert!(!is_canonical_uuid_str("550e8400-e29b-41d4-a716-44665544000"));
    assert!(!is_canonical_uuid_str("550e8400-e29b-41d4-a716-4466554400000"));
}

#[test]
fn misplaced_hyphens_are_rejected() {
    assert!(!is_canonical_uuid_str("550e84-00e29b-41d4-a716-446655440000"));
    assert!(!is_canonical_uuid_str("550e8400ae29ba41d4aa716a446655440000"));
}

#[test]
fn non_hex_characters_are_rejected() {
    assert!(!is_canonical_uuid_str("550g8400-e29b-41d4-a716-446655440000"));
    assert!(!is_canonical_uuid_str("550e8400-e29b-41d4-a716-44665544000\u{e9}"));
}

#[test]
fn random_values_are_canonical_and_distinct() {
    let a = UuidValue::random();
    let b = UuidValue::random();
    assert!(is_canonical_uuid_str(a.as_str()));
    assert!(is_canonical_uuid_str(b.as_str()));
    assert_ne!(a.as_str(), b.as_str());
}
