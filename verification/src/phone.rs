//! Phone-number canonicalization for the sign-in lookup: the same human number must canonicalize
//! identically every time, or its lookup hash won't match what issuance stored.
use vstd::prelude::*;

use crate::domain::PhoneNumber;
use crate::text::{chars_of, is_unicode_whitespace, push_char, trim, trim_bounds};

verus! {

/// The largest number of digits a valid E.164 number can have (excluding the leading `+`).
pub const E164_MAX_DIGITS: usize = 15;

/// Why a phone string could not be canonicalized to E.164.
#[derive(Debug, Clone, Copy, PartialEq, Eq, Structural)]
pub enum PhoneNormalizeError {
    /// Empty input, or no digits remained after stripping separators.
    Empty,
    /// Not in international form — an E.164 number must begin with `+`.
    MissingPlus,
    /// A character other than a digit or an allowed separator was present.
    InvalidCharacter,
    /// More than 15 digits.
    TooLong,
}

/// An ASCII decimal digit.
pub open spec fn is_digit(c: char) -> bool {
    '0' <= c <= '9'
}

/// A human separator that canonicalization discards: space, NBSP, `-`, `(`, `)`, `.`.
pub open spec fn is_separator(c: char) -> bool {
    c == ' ' || c == '\u{a0}' || c == '-' || c == '(' || c == ')' || c == '.'
}

/// The digits of `s`, in order.
pub open spec fn digits_of(s: Seq<char>) -> Seq<char>
    decreases s.len(),
{
    if s.len() == 0 {
        s
    } else if is_digit(s.last()) {
        digits_of(s.drop_last()).push(s.last())
    } else {
        digits_of(s.drop_last())
    }
}

/// `digits_of(s)` holds only digits and is no longer than `s`.
pub proof fn lemma_digits_of(s: Seq<char>)
    ensures
        digits_of(s).len() <= s.len(),
        forall|i: int| 0 <= i < digits_of(s).len() ==> is_digit(#[trigger] digits_of(s)[i]),
    decreases s.len(),
{
    if s.len() > 0 {
        lemma_digits_of(s.drop_last());
    }
}

/// The canonical E.164 form of `raw`: trim surrounding whitespace; require a leading `+`; the
/// rest may hold only digits and separators; keep the digits, of which there must be 1 to 15.
pub open spec fn normalize_phone_spec(raw: Seq<char>) -> Result<Seq<char>, PhoneNormalizeError> {
    let t = trim(raw);
    if t.len() == 0 {
        Err(PhoneNormalizeError::Empty)
    } else if t[0] != '+' {
        Err(PhoneNormalizeError::MissingPlus)
    } else if exists|i: int|
        1 <= i < t.len() && !is_digit(#[trigger] t[i]) && !is_separator(t[i]) {
        Err(PhoneNormalizeError::InvalidCharacter)
    } else if digits_of(t.drop_first()).len() == 0 {
        Err(PhoneNormalizeError::Empty)
    } else if digits_of(t.drop_first()).len() > E164_MAX_DIGITS {
        Err(PhoneNormalizeError::TooLong)
    } else {
        Ok(seq!['+'] + digits_of(t.drop_first()))
    }
}

/// Canonicalize `raw` to an E.164 [`PhoneNumber`] (`+` followed by 1–15 digits), or return why it
/// could not be.
pub fn normalize_phone(raw: &str) -> (r: Result<PhoneNumber, PhoneNormalizeError>)
    ensures
        match r {
            Ok(p) => normalize_phone_spec(raw@) == Ok::<Seq<char>, PhoneNormalizeError>(p@),
            Err(e) => normalize_phone_spec(raw@) == Err::<Seq<char>, PhoneNormalizeError>(e),
        },
{
    let cs = chars_of(raw);
    let (lo, hi) = trim_bounds(&cs);
    let ghost t = cs@.subrange(lo as int, hi as int);
    if lo == hi {
        return Err(PhoneNormalizeError::Empty);
    }
    assert(t[0] == cs@[lo as int]);
    if cs[lo] != '+' {
        return Err(PhoneNormalizeError::MissingPlus);
    }
    let mut canonical = String::new();
    push_char(&mut canonical, '+');
    let mut count: usize = 0;
    let mut k: usize = lo + 1;
    while k < hi
        invariant
            lo < k <= hi <= cs@.len(),
            t == cs@.subrange(lo as int, hi as int),
            forall|i: int| 1 <= i < k - lo ==> is_digit(#[trigger] t[i]) || is_separator(t[i]),
            canonical@ == seq!['+'] + digits_of(t.subrange(1, k - lo)),
            count == digits_of(t.subrange(1, k - lo)).len(),
            t.len() > 0 && t[0] == '+',
            trim(raw@) == t,
        decreases hi - k,
    {
        proof {
            lemma_digits_of(t.subrange(1, k - lo));
        }
        let c = cs[k];
        assert(t.subrange(1, k - lo + 1).drop_last() =~= t.subrange(1, k - lo));
        assert(t.subrange(1, k - lo + 1).last() == c);
        if '0' <= c && c <= '9' {
            push_char(&mut canonical, c);
            count = count + 1;
        } else if c == ' ' || c == '\u{a0}' || c == '-' || c == '(' || c == ')' || c == '.' {
        } else {
            assert(t[k - lo] == c);
            assert(!is_digit(t[k - lo]) && !is_separator(t[k - lo]));
            return Err(PhoneNormalizeError::InvalidCharacter);
        }
        k = k + 1;
    }
    assert(t.subrange(1, hi - lo) =~= t.drop_first());
    if count == 0 {
        return Err(PhoneNormalizeError::Empty);
    }
    if count > E164_MAX_DIGITS {
        return Err(PhoneNormalizeError::TooLong);
    }
    Ok(PhoneNumber::new(canonical))
}

} // verus!

verus! {

/// A sequence of digits is its own digit sequence.
proof fn lemma_digits_of_digits(s: Seq<char>)
    requires
        forall|i: int| 0 <= i < s.len() ==> is_digit(#[trigger] s[i]),
    ensures
        digits_of(s) == s,
    decreases s.len(),
{
    if s.len() > 0 {
        lemma_digits_of_digits(s.drop_last());
        assert(digits_of(s.drop_last()).push(s.last()) =~= s);
    }
}

/// Canonicalization is idempotent: the canonical form of a number canonicalizes to itself, so
/// issuance and sign-in agree no matter how often a number passes through it.
pub proof fn lemma_normalize_phone_idempotent(raw: Seq<char>)
    requires
        normalize_phone_spec(raw) is Ok,
    ensures
        normalize_phone_spec(normalize_phone_spec(raw)->Ok_0) == normalize_phone_spec(raw),
{
    let t = trim(raw);
    let d = digits_of(t.drop_first());
    lemma_digits_of(t.drop_first());
    let p = seq!['+'] + d;
    assert(normalize_phone_spec(raw) == Ok::<Seq<char>, PhoneNormalizeError>(p));
    assert(p[0] == '+');
    assert(!is_unicode_whitespace('+'));
    assert(crate::text::trim_start(p) == p);
    assert(p.last() == d.last());
    assert(is_digit(d[d.len() - 1]));
    assert(!is_unicode_whitespace(p.last()));
    assert(crate::text::trim_end(p) == p);
    assert(trim(p) == p);
    assert(p.drop_first() =~= d);
    lemma_digits_of_digits(d);
    assert forall|i: int| 1 <= i < p.len() implies is_digit(#[trigger] p[i]) by {
        assert(p[i] == d[i - 1]);
    }
}

/// Every accepted number is E.164: a `+` then between 1 and 15 ASCII digits, nothing else.
pub proof fn lemma_normalized_is_e164(raw: Seq<char>)
    requires
        normalize_phone_spec(raw) is Ok,
    ensures
        normalize_phone_spec(raw)->Ok_0[0] == '+',
        2 <= normalize_phone_spec(raw)->Ok_0.len() <= 16,
        forall|i: int| 1 <= i < normalize_phone_spec(raw)->Ok_0.len()
            ==> '0' <= #[trigger] normalize_phone_spec(raw)->Ok_0[i] <= '9',
{
    let t = trim(raw);
    let d = digits_of(t.drop_first());
    lemma_digits_of(t.drop_first());
    let p = seq!['+'] + d;
    assert(normalize_phone_spec(raw)->Ok_0 == p);
    assert forall|i: int| 1 <= i < p.len() implies '0' <= #[trigger] p[i] <= '9' by {
        assert(p[i] == d[i - 1]);
    }
}

} // verus!
