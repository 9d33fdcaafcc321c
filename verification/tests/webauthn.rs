//! The wire form of the admin-WebAuthn byte fields: unpadded base64url.

use boundless_server_core::{b64, b64_opt};

#[test]
fn byte_fields_encode_as_unpadded_base64url() {
    assert_eq!(b64(&[1, 2, 3]), "AQID");
    assert_eq!(b64(&[4, 5, 6]), "BAUG");
    assert_eq!(b64(&[0xab]), "qw");
    assert_eq!(b64(&[]), "");
    // URL-safe alphabet: `-` and `_` in place of `+` and `/`.
    assert_eq!(b64(&[0xfb, 0xff]), "-_8");
}

#[test]
fn optional_byte_field_stays_absent() {
    assert_eq!(b64_opt(&None), None);
    assert_eq!(b64_opt(&Some(vec![0xab])), Some("qw".to_string()));
}

#[test]
fn encoded_length_follows_the_tail() {
    for n in 0..10usize {
        let bytes = vec![0x5a; n];
        let expected = (n / 3) * 4 + [0, 2, 3][n % 3];
        assert_eq!(b64(&bytes).len(), expected);
    }
}
