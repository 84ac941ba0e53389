use quotes_api::ident::{has_random_version, parse_id, CANONICAL_LEN};
use quotes_api::quote::Quote;

#[test]
fn canonical_form_is_parsed_to_its_bits() {
    assert_eq!(
        parse_id("67e55044-10b1-426f-9247-bb680e5fe0c8"),
        Some(0x67e5504410b1426f9247bb680e5fe0c8u128)
    );
}

#[test]
fn upper_case_digits_are_read_too() {
    assert_eq!(
        parse_id("67E55044-10B1-426F-9247-BB680E5FE0C8"),
        Some(0x67e5504410b1426f9247bb680e5fe0c8u128)
    );
}

#[test]
fn nil_and_max_identifiers() {
    assert_eq!(parse_id("00000000-0000-0000-0000-000000000000"), Some(0u128));
    assert_eq!(parse_id("ffffffff-ffff-ffff-ffff-ffffffffffff"), Some(u128::MAX));
}

#[test]
fn parsing_agrees_with_the_uuid_crate() {
    let id = uuid::Uuid::from_u128(0x0123456789abcdef0123456789abcdefu128);
    assert_eq!(parse_id(&id.to_string()), Some(id.as_u128()));
}

#[test]
fn other_spellings_are_refused() {
    assert_eq!(parse_id("67e5504410b1426f9247bb680e5fe0c8"), None);
    assert_eq!(parse_id("{67e55044-10b1-426f-9247-bb680e5fe0c8}"), None);
    assert_eq!(parse_id("urn:uuid:67e55044-10b1-426f-9247-bb680e5fe0c8"), None);
}

#[test]
fn malformed_texts_are_refused() {
    assert_eq!(parse_id(""), None);
    assert_eq!(parse_id("42"), None);
    assert_eq!(parse_id("not-a-uuid"), None);
    assert_eq!(parse_id("67e55044-10b1-426f-9247-bb680e5fe0cg"), None);
    assert_eq!(parse_id("67e55044_10b1_426f_9247_bb680e5fe0c8"), None);
    assert_eq!(parse_id("67e55044-10b1-426f-9247-bb680e5fe0c"), None);
    assert_eq!(parse_id("67e55044-10b1-426f-9247-bb680e5fe0c8a"), None);
}

#[test]
fn thirty_six_characters_of_more_bytes_are_refused() {
    let text = "67e55044-10b1-426f-9247-bb680e5fe0c\u{e9}";
    assert_eq!(text.chars().count(), CANONICAL_LEN);
    assert_eq!(parse_id(text), None);
}

#[test]
fn random_version_is_read_from_the_bits() {
    assert!(has_random_version(0x67e5504410b1426f9247bb680e5fe0c8u128));
    assert!(!has_random_version(0u128));
    assert!(!has_random_version(u128::MAX));
    assert!(!has_random_version(0x67e5504410b1126f9247bb680e5fe0c8u128));
    assert!(!has_random_version(0x67e5504410b1426fd247bb680e5fe0c8u128));
}

#[test]
fn new_quotes_get_random_identifiers() {
    let first = Quote::new("Dune".to_string(), "Fear is the mind-killer".to_string());
    let second = Quote::new("Dune".to_string(), "Fear is the mind-killer".to_string());
    assert!(has_random_version(first.id));
    assert!(has_random_version(second.id));
    assert_ne!(first.id, second.id);
    assert_eq!(
        uuid::Uuid::from_u128(first.id).get_version(),
        Some(uuid::Version::Random)
    );
}
