//! The production secret source: opaque-random credentials from an injected, here seeded,
//! generator, lowercase-hex encoded.

use boundless_server_core::{to_hex, AccessToken, RecoveryCode, RefreshToken, RngSecretSource};
use rand_chacha::ChaCha20Rng;
use rand_core::SeedableRng;

fn seeded(seed: u64) -> RngSecretSource<ChaCha20Rng> {
    RngSecretSource::new(ChaCha20Rng::seed_from_u64(seed))
}

/// One opaque token: 32 bytes drawn from the generator, encoded by the library.
fn opaque(s: &mut RngSecretSource<ChaCha20Rng>) -> String {
    let mut draw = [0u8; 32];
    rand_core::RngCore::fill_bytes(s.rng_mut(), &mut draw);
    RngSecretSource::<ChaCha20Rng>::fresh_opaque(&draw)
}

fn fresh_refresh(s: &mut RngSecretSource<ChaCha20Rng>) -> RefreshToken {
    RefreshToken::new(opaque(s))
}

fn fresh_access(s: &mut RngSecretSource<ChaCha20Rng>) -> AccessToken {
    AccessToken::new(opaque(s))
}

fn fresh_recovery_code(s: &mut RngSecretSource<ChaCha20Rng>) -> RecoveryCode {
    RecoveryCode::new(opaque(s))
}

#[test]
fn to_hex_is_lossless_full_width_lowercase() {
    assert_eq!(to_hex(&[0x00, 0xff, 0x10, 0x0a, 0xa0]), "00ff100aa0");
    assert_eq!(to_hex(&[]), "");
    assert_eq!(to_hex(&[0x42]), "42");
    let all: Vec<u8> = (0u16..=255).map(|b| b as u8).collect();
    let hex = to_hex(&all);
    assert_eq!(hex.len(), 512);
    assert!(hex.bytes().all(|c| c.is_ascii_hexdigit() && !c.is_ascii_uppercase()));
    assert!(hex.starts_with("000102") && hex.ends_with("fdfeff"));
}

#[test]
fn deterministic_given_the_same_seed() {
    let mut a = seeded(7);
    let mut b = seeded(7);
    for _ in 0..5 {
        assert_eq!(fresh_refresh(&mut a).expose_secret(), fresh_refresh(&mut b).expose_secret());
        assert_eq!(fresh_access(&mut a).expose_secret(), fresh_access(&mut b).expose_secret());
        assert_eq!(
            fresh_recovery_code(&mut a).expose_secret(),
            fresh_recovery_code(&mut b).expose_secret()
        );
    }
}

#[test]
fn different_seeds_diverge() {
    let mut a = seeded(1);
    let mut b = seeded(2);
    assert_ne!(
        fresh_access(&mut a).expose_secret(),
        fresh_access(&mut b).expose_secret(),
        "distinct seeds must produce distinct tokens"
    );
}

#[test]
fn fresh_secrets_are_distinct_across_calls() {
    let mut s = seeded(42);
    let mut seen = std::collections::HashSet::new();
    for _ in 0..64 {
        assert!(seen.insert(fresh_refresh(&mut s).expose_secret().to_owned()));
        assert!(seen.insert(fresh_access(&mut s).expose_secret().to_owned()));
    }
}

#[test]
fn opaque_tokens_are_256_bit_lowercase_hex() {
    let mut s = seeded(99);
    let access = fresh_access(&mut s);
    let refresh = fresh_refresh(&mut s);
    for token in [access.expose_secret(), refresh.expose_secret()] {
        assert_eq!(token.len(), 64, "256-bit token = 64 hex chars");
        assert!(
            token.bytes().all(|b| b.is_ascii_hexdigit() && !b.is_ascii_uppercase()),
            "token must be lowercase hex: {token}"
        );
    }
}

#[test]
fn opaque_token_is_the_hex_of_its_draw() {
    let draw = [0xabu8; 32];
    let token = RngSecretSource::<ChaCha20Rng>::fresh_opaque(&draw);
    assert_eq!(token, "ab".repeat(32));
    let mut counting = [0u8; 32];
    for (i, b) in counting.iter_mut().enumerate() {
        *b = i as u8 * 8;
    }
    let token = RngSecretSource::<ChaCha20Rng>::fresh_opaque(&counting);
    assert!(token.starts_with("000810182028"));
    assert!(token.ends_with("e8f0f8"));
}
