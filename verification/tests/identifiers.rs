use clipstash::{DbId, ShortCode};

#[test]
fn dbid_round_trips_canonical_string() {
    let s = "550e8400-e29b-41d4-a716-446655440000";
    let id = DbId::from_str(s).expect("canonical string must parse");
    assert_eq!(id.to_string(), s);
}

#[test]
fn dbid_nil_is_all_zero() {
    assert_eq!(DbId::nil().to_string(), "00000000-0000-0000-0000-000000000000");
}

#[test]
fn dbid_rejects_malformed_string() {
    assert!(DbId::from_str("not-a-uuid").is_err());
    assert!(DbId::from_str("").is_err());
    assert!(DbId::from_str("550e8400-e29b-41d4-a716-44665544000").is_err());
}

#[test]
fn dbid_canonicalizes_uppercase_input() {
    let id = DbId::from_str("550E8400-E29B-41D4-A716-446655440000").expect("must parse");
    assert_eq!(id.to_string(), "550e8400-e29b-41d4-a716-446655440000");
}

#[test]
fn dbid_keeps_leading_zeros() {
    let s = "00000000-0000-0000-0000-000000000001";
    let id = DbId::from_str(s).expect("canonical string must parse");
    assert_eq!(id.to_string(), s);
}

#[test]
fn dbid_accepts_simple_form_and_renders_canonically() {
    let id = DbId::from_str("550e8400e29b41d4a716446655440000").expect("must parse");
    assert_eq!(id.to_string(), "550e8400-e29b-41d4-a716-446655440000");
}

#[test]
fn dbid_fresh_values_differ() {
    let a = DbId::new();
    let b = DbId::new();
    assert_ne!(a.to_string(), b.to_string());
}

#[test]
fn dbid_fresh_value_is_never_nil() {
    assert_ne!(DbId::new().to_string(), DbId::nil().to_string());
    assert_ne!(DbId::default().to_string(), DbId::nil().to_string());
}

#[test]
fn shortcode_generate_is_sixteen_digits() {
    let code = ShortCode::generate().into_inner();
    assert_eq!(code.len(), 16);
    assert!(code.chars().all(|c| c.is_ascii_hexdigit() && !c.is_ascii_uppercase()));
}

#[test]
fn shortcode_fresh_values_differ() {
    let a = ShortCode::generate().into_inner();
    let b = ShortCode::generate().into_inner();
    assert_ne!(a, b);
}

#[test]
fn shortcode_adopts_string_verbatim() {
    let code = ShortCode::from_string(String::from("abc123"));
    assert_eq!(code.as_str(), "abc123");
    assert_eq!(code.into_inner(), "abc123");
}
