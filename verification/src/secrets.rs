//! Opaque-random credentials: 256-bit draws from an injected CSPRNG, lowercase-hex encoded. The
//! draw itself is the caller's (the generator is injected, so the core holds no ambient
//! randomness); the encoding of a draw into a token string is decided here.
use vstd::prelude::*;

use crate::text::push_char;

verus! {

/// Bytes of entropy per generated secret: 256 bits.
pub const SECRET_BYTES: usize = 32;

/// The lowercase hexadecimal digit for `n < 16`.
pub open spec fn hex_digit(n: int) -> char
    recommends
        0 <= n < 16,
{
    if n < 10 {
        (48 + n) as char
    } else {
        (87 + n) as char
    }
}

/// Lowercase-hex encoding: each byte becomes its high nibble then its low nibble.
pub open spec fn hex_spec(bytes: Seq<u8>) -> Seq<char>
    decreases bytes.len(),
{
    if bytes.len() == 0 {
        Seq::empty()
    } else {
        let b = bytes.last();
        hex_spec(bytes.drop_last()).push(hex_digit(b as int / 16)).push(hex_digit(b as int % 16))
    }
}

/// A lowercase hexadecimal digit character.
pub open spec fn is_lower_hex(c: char) -> bool {
    ('0' <= c <= '9') || ('a' <= c <= 'f')
}

fn hex_char(n: u8) -> (c: char)
    requires
        n < 16,
    ensures
        c == hex_digit(n as int),
{
    if n < 10 {
        (48 + n) as char
    } else {
        (87 + n) as char
    }
}

/// Lowercase-hex-encode `bytes` (two characters per byte, high nibble first).
pub fn to_hex(bytes: &[u8]) -> (s: String)
    ensures
        s@ == hex_spec(bytes@),
{
    let mut s = String::new();
    let mut i: usize = 0;
    while i < bytes.len()
        invariant
            i <= bytes@.len(),
            s@ == hex_spec(bytes@.subrange(0, i as int)),
        decreases bytes@.len() - i,
    {
        let b = bytes[i];
        assert(bytes@.subrange(0, i as int + 1).drop_last() =~= bytes@.subrange(0, i as int));
        push_char(&mut s, hex_char(b / 16));
        push_char(&mut s, hex_char(b % 16));
        i = i + 1;
    }
    assert(bytes@.subrange(0, bytes@.len() as int) =~= bytes@);
    s
}

/// The production secret source: an injected cryptographically secure generator `R`. The caller
/// draws [`SECRET_BYTES`] bytes from the generator ([`RngSecretSource::rng_mut`]) and
/// [`RngSecretSource::fresh_opaque`] turns the draw into the token.
pub struct RngSecretSource<R> {
    rng: R,
}

impl<R> RngSecretSource<R> {
    /// The generator this source draws from.
    pub closed spec fn generator(&self) -> R {
        self.rng
    }

    /// Wrap an injected generator.
    pub fn new(rng: R) -> (s: Self)
        ensures
            s.generator() == rng,
    {
        RngSecretSource { rng }
    }

    /// The generator, to draw from.
    pub fn rng_mut(&mut self) -> (r: &mut R)
        ensures
            *r == old(self).generator(),
            final(self).generator() == *final(r),
    {
        &mut self.rng
    }

    /// The opaque token for one draw of [`SECRET_BYTES`] bytes: its lowercase-hex encoding, 64
    /// lowercase hexadecimal characters.
    pub fn fresh_opaque(draw: &[u8; SECRET_BYTES]) -> (token: String)
        ensures
            token@ == hex_spec(draw@),
            token@.len() == 2 * SECRET_BYTES,
            forall|i: int| 0 <= i < token@.len() ==> is_lower_hex(#[trigger] token@[i]),
    {
        let token = to_hex(draw);
        proof {
            lemma_hex_shape(draw@);
        }
        token
    }
}

} // verus!

verus! {

proof fn lemma_hex_digit(n: int)
    requires
        0 <= n < 16,
    ensures
        is_lower_hex(hex_digit(n)),
        forall|m: int| 0 <= m < 16 && hex_digit(m) == hex_digit(n) ==> m == n,
{
    assert forall|m: int| 0 <= m < 16 && hex_digit(m) == hex_digit(n) implies m == n by {
        assert((hex_digit(m) as u32) == (hex_digit(n) as u32));
    }
}

/// The encoding is full width and lowercase: every byte becomes exactly two characters, each a
/// lowercase hexadecimal digit.
pub proof fn lemma_hex_shape(bytes: Seq<u8>)
    ensures
        hex_spec(bytes).len() == 2 * bytes.len(),
        forall|i: int| 0 <= i < hex_spec(bytes).len() ==> is_lower_hex(#[trigger] hex_spec(bytes)[i]),
    decreases bytes.len(),
{
    if bytes.len() > 0 {
        let b = bytes.last();
        lemma_hex_shape(bytes.drop_last());
        lemma_hex_digit(b as int / 16);
        lemma_hex_digit(b as int % 16);
        let prev = hex_spec(bytes.drop_last());
        assert forall|i: int| 0 <= i < hex_spec(bytes).len() implies is_lower_hex(
            #[trigger] hex_spec(bytes)[i],
        ) by {
            if i < prev.len() {
                assert(hex_spec(bytes)[i] == prev[i]);
            }
        }
    }
}

/// The encoding is lossless: distinct byte strings never encode to the same token.
pub proof fn lemma_hex_injective(a: Seq<u8>, b: Seq<u8>)
    requires
        hex_spec(a) == hex_spec(b),
    ensures
        a == b,
    decreases a.len(),
{
    lemma_hex_shape(a);
    lemma_hex_shape(b);
    if a.len() > 0 {
        let x = a.last();
        let y = b.last();
        let ha = hex_spec(a);
        let n = ha.len();
        assert(ha[n - 2] == hex_digit(x as int / 16));
        assert(hex_spec(b)[n - 2] == hex_digit(y as int / 16));
        assert(ha[n - 1] == hex_digit(x as int % 16));
        assert(hex_spec(b)[n - 1] == hex_digit(y as int % 16));
        lemma_hex_digit(x as int / 16);
        lemma_hex_digit(x as int % 16);
        assert(x as int / 16 == y as int / 16);
        assert(x as int % 16 == y as int % 16);
        assert(x == y);
        assert(hex_spec(a.drop_last()) =~= ha.subrange(0, n - 2));
        assert(hex_spec(b.drop_last()) =~= hex_spec(b).subrange(0, n - 2));
        lemma_hex_injective(a.drop_last(), b.drop_last());
        assert(a =~= a.drop_last().push(x));
        assert(b =~= b.drop_last().push(y));
    }
}

/// The value of a lowercase hexadecimal digit.
pub open spec fn hex_value(c: char) -> int {
    if '0' <= c <= '9' {
        c as int - '0' as int
    } else {
        c as int - 'a' as int + 10
    }
}

/// The encoding decodes back: the two characters at `2i` and `2i + 1` are lowercase hex digits
/// whose values, high then low, give byte `i`.
pub proof fn lemma_hex_decodes(bytes: Seq<u8>, i: int)
    requires
        0 <= i < bytes.len(),
    ensures
        hex_spec(bytes).len() == 2 * bytes.len(),
        is_lower_hex(hex_spec(bytes)[2 * i]),
        is_lower_hex(hex_spec(bytes)[2 * i + 1]),
        hex_value(hex_spec(bytes)[2 * i]) * 16 + hex_value(hex_spec(bytes)[2 * i + 1]) == bytes[i] as int,
    decreases bytes.len(),
{
    lemma_hex_shape(bytes);
    let n = bytes.len();
    let b = bytes.last();
    let prev = hex_spec(bytes.drop_last());
    lemma_hex_shape(bytes.drop_last());
    if i < n - 1 {
        lemma_hex_decodes(bytes.drop_last(), i);
        assert(hex_spec(bytes)[2 * i] == prev[2 * i]);
        assert(hex_spec(bytes)[2 * i + 1] == prev[2 * i + 1]);
    } else {
        assert(hex_spec(bytes)[2 * i] == hex_digit(b as int / 16));
        assert(hex_spec(bytes)[2 * i + 1] == hex_digit(b as int % 16));
        assert(hex_value(hex_digit(b as int / 16)) == b as int / 16);
        assert(hex_value(hex_digit(b as int % 16)) == b as int % 16);
    }
}

} // verus!
