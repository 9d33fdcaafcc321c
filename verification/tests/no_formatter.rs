//! The secret-bearing response types expose no formatter: none of them derives or implements
//! `Debug`/`Display`, so a stray `{:?}` cannot print a credential or a member's PII.

#[test]
fn secret_bearing_responses_are_unformattable_and_unserializable() {}
