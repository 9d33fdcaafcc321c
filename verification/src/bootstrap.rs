//! Group bootstrap — the fail-closed gate on the per-group encryption key. A missing bootstrap
//! row and a blob that does not unwrap are the same failure: no usable key.
use vstd::prelude::*;

verus! {

/// The KEK version a freshly bootstrapped group key is wrapped under.
pub const INITIAL_KEK_VERSION: i32 = 1;

/// The per-group key could not be made available for a field-encrypting operation. Carries no
/// key, ciphertext, or PII, and does not say which of "no row" and "unwrap failed" happened.
#[derive(Debug, Clone, Copy, PartialEq, Eq, Structural)]
pub struct GroupKeyMissing;

impl GroupKeyMissing {
    /// The stable error code.
    pub fn error_code(self) -> (code: &'static str)
        ensures
            code@ == "ADMIN_GROUP_KEY_MISSING"@,
    {
        "ADMIN_GROUP_KEY_MISSING"
    }
}

/// The fail-closed key check. `unwrapped` holds the result of unwrapping the stored key under
/// the KEK, or `None` if the group has no stored key. Only `Some(Ok(key))` yields a key.
pub fn load_group_key<K, E>(unwrapped: Option<Result<K, E>>) -> (r: Result<K, GroupKeyMissing>)
    ensures
        match unwrapped {
            Some(Ok(k)) => r == Ok::<K, GroupKeyMissing>(k),
            _ => r == Err::<K, GroupKeyMissing>(GroupKeyMissing),
        },
{
    match unwrapped {
        Some(Ok(k)) => Ok(k),
        _ => Err(GroupKeyMissing),
    }
}

} // verus!
