//! Phone canonicalization: the same human number always yields the same E.164 form (so its
//! lookup hash matches what issuance stored), and non-E.164 input is rejected.

use boundless_server_core::{normalize_phone, PhoneNormalizeError};

#[test]
fn same_human_number_different_formats_canonicalize_identically() {
    let canonical = "+15550101234";
    for raw in [
        "+15550101234",
        "+1 555 010 1234",
        "+1 (555) 010-1234",
        "+1.555.010.1234",
        "  +1-555-010-1234  ",
    ] {
        let n = normalize_phone(raw).expect("valid E.164");
        assert_eq!(
            n.expose_secret(),
            canonical,
            "`{raw}` should canonicalize to {canonical}"
        );
    }
}

#[test]
fn normalize_is_idempotent() {
    let once = normalize_phone("+1 (555) 010-1234").unwrap();
    let twice = normalize_phone(once.expose_secret()).unwrap();
    assert_eq!(once.expose_secret(), twice.expose_secret());
}

#[test]
fn rejects_non_e164() {
    assert!(matches!(normalize_phone(""), Err(PhoneNormalizeError::Empty)));
    assert!(matches!(normalize_phone("   "), Err(PhoneNormalizeError::Empty)));
    assert!(matches!(
        normalize_phone("15550101234"),
        Err(PhoneNormalizeError::MissingPlus)
    ));
    assert!(matches!(
        normalize_phone("+1-555-01a-1234"),
        Err(PhoneNormalizeError::InvalidCharacter)
    ));
    assert!(matches!(normalize_phone("+ - ()"), Err(PhoneNormalizeError::Empty)));
    assert!(matches!(
        normalize_phone("+1234567890123456"),
        Err(PhoneNormalizeError::TooLong)
    ));
}

#[test]
fn fifteen_digits_is_the_longest_accepted() {
    let n = normalize_phone("+123456789012345").expect("15 digits is E.164");
    assert_eq!(n.expose_secret(), "+123456789012345");
    assert_eq!(normalize_phone("+7").unwrap().expose_secret(), "+7");
}

#[test]
fn unicode_whitespace_around_the_number_is_trimmed() {
    let n = normalize_phone("\u{00a0}\t+44 20 7946 0958\u{3000}").expect("trimmed");
    assert_eq!(n.expose_secret(), "+442079460958");
}

#[test]
fn a_plus_after_the_first_character_is_invalid() {
    assert!(matches!(
        normalize_phone("+1+5550101234"),
        Err(PhoneNormalizeError::InvalidCharacter)
    ));
}
