//! The PII-free admin-WebAuthn records: invitation rows as invite-resolve returns them, stored
//! credentials, and the write/outcome shapes of registration. They carry only opaque ids, opaque
//! WebAuthn bytes, counters and server-time instants.
use vstd::prelude::*;

use crate::domain::{MemberId, UnixSeconds};

verus! {

/// The URL-safe base64 digit for a six-bit value `n`: `A`–`Z`, `a`–`z`, `0`–`9`, `-`, `_`.
pub open spec fn base64url_char(n: int) -> char
    recommends
        0 <= n < 64,
{
    if n < 26 {
        (65 + n) as char
    } else if n < 52 {
        (71 + n) as char
    } else if n < 62 {
        (n - 4) as char
    } else if n == 62 {
        '-'
    } else {
        '_'
    }
}

/// The unpadded base64url (RFC 4648 §5) text of `bytes`: each three-byte chunk becomes four
/// digits of its 24 bits, high six first; a one-byte tail becomes two digits and a two-byte tail
/// three, the tail's bits padded with zeros on the right; no `=` padding.
pub open spec fn base64url_no_pad(bytes: Seq<u8>) -> Seq<char>
    decreases bytes.len(),
{
    if bytes.len() == 0 {
        Seq::empty()
    } else if bytes.len() == 1 {
        let a = bytes[0] as int;
        seq![base64url_char(a / 4), base64url_char((a % 4) * 16)]
    } else if bytes.len() == 2 {
        let a = bytes[0] as int;
        let b = bytes[1] as int;
        seq![base64url_char(a / 4), base64url_char((a % 4) * 16 + b / 16), base64url_char((b % 16) * 4)]
    } else {
        let a = bytes[0] as int;
        let b = bytes[1] as int;
        let c = bytes[2] as int;
        seq![
            base64url_char(a / 4),
            base64url_char((a % 4) * 16 + b / 16),
            base64url_char((b % 16) * 4 + c / 64),
            base64url_char(c % 64),
        ] + base64url_no_pad(bytes.subrange(3, bytes.len() as int))
    }
}

/// The length of the unpadded base64 text of `n` bytes: four characters per whole three-byte
/// chunk, then two for a one-byte tail and three for a two-byte tail.
pub open spec fn base64_unpadded_len(n: nat) -> nat {
    (n / 3) * 4 + if n % 3 == 1 { 2nat } else if n % 3 == 2 { 3nat } else { 0nat }
}

/// A character of the URL-safe base64 alphabet.
pub open spec fn is_base64url_char(c: char) -> bool {
    ||| 'A' <= c <= 'Z'
    ||| 'a' <= c <= 'z'
    ||| '0' <= c <= '9'
    ||| c == '-'
    ||| c == '_'
}

/// Calls `base64::Engine::encode` on the `URL_SAFE_NO_PAD` engine: the standard base64
/// encoding over the URL-safe alphabet with padding off, which is [`base64url_no_pad`]. Its source
/// panics only if the output size `encoded_len(len, false)` overflows `usize`, which `requires`
/// rules out.
#[verifier::external_body]
fn base64url_encode(bytes: &[u8]) -> (s: String)
    requires
        bytes@.len() / 3 * 4 + 3 <= usize::MAX,
    ensures
        s@ == base64url_no_pad(bytes@),
{
    base64::Engine::encode(&base64::engine::general_purpose::URL_SAFE_NO_PAD, bytes)
}

/// The wire form of a WebAuthn byte field: unpadded base64url.
pub fn b64(bytes: &[u8]) -> (s: String)
    requires
        bytes@.len() / 3 * 4 + 3 <= usize::MAX,
    ensures
        s@ == base64url_no_pad(bytes@),
        s@.len() == base64_unpadded_len(bytes@.len()),
        forall|i: int| 0 <= i < s@.len() ==> is_base64url_char(#[trigger] s@[i]),
{
    let s = base64url_encode(bytes);
    proof {
        lemma_base64url_shape(bytes@);
    }
    s
}

proof fn lemma_base64url_char(n: int)
    requires
        0 <= n < 64,
    ensures
        is_base64url_char(base64url_char(n)),
{
    if n < 26 {
        assert(('A' as int) <= (65 + n) <= ('Z' as int));
    } else if n < 52 {
        assert(('a' as int) <= (71 + n) <= ('z' as int));
    } else if n < 62 {
        assert(('0' as int) <= (n - 4) <= ('9' as int));
    }
}

/// The unpadded base64url text of `n` bytes has [`base64_unpadded_len`]`(n)` characters, all
/// from the URL-safe alphabet.
pub proof fn lemma_base64url_shape(bytes: Seq<u8>)
    ensures
        base64url_no_pad(bytes).len() == base64_unpadded_len(bytes.len()),
        forall|i: int| 0 <= i < base64url_no_pad(bytes).len()
            ==> is_base64url_char(#[trigger] base64url_no_pad(bytes)[i]),
    decreases bytes.len(),
{
    let n = bytes.len();
    if n == 0 {
    } else if n == 1 {
        let a = bytes[0] as int;
        lemma_base64url_char(a / 4);
        lemma_base64url_char((a % 4) * 16);
    } else if n == 2 {
        let a = bytes[0] as int;
        let b = bytes[1] as int;
        lemma_base64url_char(a / 4);
        lemma_base64url_char((a % 4) * 16 + b / 16);
        lemma_base64url_char((b % 16) * 4);
    } else {
        let a = bytes[0] as int;
        let b = bytes[1] as int;
        let c = bytes[2] as int;
        let rest = bytes.subrange(3, n as int);
        lemma_base64url_shape(rest);
        lemma_base64url_char(a / 4);
        lemma_base64url_char((a % 4) * 16 + b / 16);
        lemma_base64url_char((b % 16) * 4 + c / 64);
        lemma_base64url_char(c % 64);
        let head = seq![
            base64url_char(a / 4),
            base64url_char((a % 4) * 16 + b / 16),
            base64url_char((b % 16) * 4 + c / 64),
            base64url_char(c % 64),
        ];
        let out = base64url_no_pad(bytes);
        assert(out == head + base64url_no_pad(rest));
        assert(base64_unpadded_len(n) == 4 + base64_unpadded_len(rest.len()));
        assert forall|i: int| 0 <= i < out.len() implies is_base64url_char(#[trigger] out[i]) by {
            if i >= 4 {
                assert(out[i] == base64url_no_pad(rest)[i - 4]);
            }
        }
    }
}

/// The wire form of an optional WebAuthn byte field: absent stays absent.
pub fn b64_opt(opt: &Option<Vec<u8>>) -> (s: Option<String>)
    requires
        opt matches Some(b) ==> b@.len() / 3 * 4 + 3 <= usize::MAX,
    ensures
        opt is None ==> s is None,
        opt matches Some(b) ==> (s matches Some(t) && t@ == base64url_no_pad(b@)),
{
    match opt {
        Some(bytes) => Some(b64(bytes.as_slice())),
        None => None,
    }
}

/// A pending-admin invitation row.
#[derive(Debug, Clone, PartialEq, Eq)]
pub struct AdminInviteRecord {
    /// The pending Admin this invitation is for.
    pub admin_id: MemberId,
    /// The group the invitation belongs to (a UUID as its 128-bit value).
    pub group_id: u128,
    /// Server-side TTL instant.
    pub expires_at: UnixSeconds,
    /// Single-use marker; `None` while live.
    pub consumed_at: Option<UnixSeconds>,
}

/// A stored admin WebAuthn credential. An admin may hold more than one active credential.
#[derive(Debug, Clone, PartialEq, Eq)]
pub struct AdminCredential {
    pub credential_id: Vec<u8>,
    pub admin_id: MemberId,
    /// The COSE public key bytes (public, not secret).
    pub public_key: Vec<u8>,
    /// The signature counter; advanced only if strictly greater.
    pub sign_count: i64,
    pub transports: Option<Vec<String>>,
    pub aaguid: Option<Vec<u8>>,
    /// Revocation instant; `None` while active.
    pub revoked_at: Option<UnixSeconds>,
}

/// The material to persist for a newly registered credential.
#[derive(Debug, Clone, PartialEq, Eq)]
pub struct NewAdminCredential {
    pub credential_id: Vec<u8>,
    pub public_key: Vec<u8>,
    pub sign_count: i64,
    pub transports: Option<Vec<String>>,
    pub aaguid: Option<Vec<u8>>,
}

/// The outcome of completing a registration in one transaction.
#[derive(Debug, Clone, Copy, PartialEq, Eq, Structural)]
pub enum RegisterCompleteOutcome {
    /// Invitation consumed, prior credentials revoked, new credential inserted; the admin id is
    /// derived from the consumed invitation row.
    Completed { admin_id: MemberId },
    /// The token matched no live invitation; nothing was written.
    InviteNotConsumable,
}

/// The registration-complete response body: the server-derived admin id only.
#[derive(Debug, Clone, Copy, PartialEq, Eq, Structural)]
pub struct AdminRegisterCompleteResult {
    pub admin_id: MemberId,
}

} // verus!
