//! Decoding of the provider identity the rendering pipeline hands across
//! the boundary.
//!
//! The identifier arrives as a nul-terminated byte sequence, valid only for
//! the duration of the fetch call. Decoding takes the bytes before the first
//! nul and reads them as UTF-8; a sequence with no terminator or with bytes
//! that are not valid UTF-8 yields nothing, and the caller at the boundary
//! must then abort rather than proceed with a corrupt identifier.

use vstd::prelude::*;

verus! {

/// Whether the raw identifier bytes carry a nul terminator at all.
pub open spec fn has_nul(s: Seq<u8>) -> bool {
    exists|i: int| 0 <= i < s.len() && s[i] == 0u8
}

/// Whether `i` is the position of the first nul byte of `s`.
pub open spec fn is_first_nul(s: Seq<u8>, i: int) -> bool {
    &&& 0 <= i < s.len()
    &&& s[i] == 0u8
    &&& forall|j: int| 0 <= j < i ==> s[j] != 0u8
}

/// The position of the first nul byte of `s`, meaningful when `has_nul(s)`.
pub open spec fn first_nul(s: Seq<u8>) -> int {
    choose|i: int| is_first_nul(s, i)
}

/// The identifier proper: the bytes of `s` before its first nul.
pub open spec fn identifier_prefix(s: Seq<u8>) -> Seq<u8> {
    s.take(first_nul(s))
}

/// Two positions that are each a first nul are the same position.
pub proof fn lemma_first_nul_unique(s: Seq<u8>, i1: int, i2: int)
    requires
        is_first_nul(s, i1),
        is_first_nul(s, i2),
    ensures
        i1 == i2,
{
    if i1 < i2 {
        assert(s[i1] != 0u8);
    }
    if i2 < i1 {
        assert(s[i2] != 0u8);
    }
}

/// What a byte sequence decodes to when read as UTF-8 text, and nothing
/// when it is not valid UTF-8. The decoding depends on the bytes alone.
pub uninterp spec fn utf8_decoding(bytes: Seq<u8>) -> Option<Seq<char>>;

/// Relies on core::str::from_utf8: reading a byte slice as UTF-8 text
/// succeeds exactly on valid UTF-8, and the result depends on the bytes
/// alone.
#[verifier::external_body]
fn utf8_to_string(bytes: &[u8]) -> (r: Option<String>)
    ensures
        r is Some <==> utf8_decoding(bytes@) is Some,
        r matches Some(s) ==> utf8_decoding(bytes@) == Some(s@),
{
    match core::str::from_utf8(bytes) {
        Ok(s) => Some(s.to_string()),
        Err(_) => None,
    }
}

/// Copies the bytes of `raw` before the first nul, if one is there.
pub fn split_at_nul(raw: &Vec<u8>) -> (r: Option<Vec<u8>>)
    ensures
        r is Some <==> has_nul(raw@),
        r matches Some(v) ==> is_first_nul(raw@, v@.len() as int) && v@ == identifier_prefix(
            raw@,
        ),
{
    let n = raw.len();
    let mut i: usize = 0;
    while i < n
        invariant
            n == raw@.len(),
            0 <= i <= n,
            forall|j: int| 0 <= j < i ==> raw@[j] != 0u8,
        decreases n - i,
    {
        if raw[i] == 0u8 {
            let mut v: Vec<u8> = Vec::new();
            let mut j: usize = 0;
            while j < i
                invariant
                    n == raw@.len(),
                    0 <= j <= i < n,
                    v@ == raw@.take(j as int),
                decreases i - j,
            {
                let b = raw[j];
                v.push(b);
                proof {
                    assert(v@ =~= raw@.take(j + 1 as int));
                }
                j += 1;
            }
            proof {
                assert(is_first_nul(raw@, i as int));
                lemma_first_nul_unique(raw@, i as int, first_nul(raw@));
            }
            return Some(v);
        }
        i += 1;
    }
    proof {
        assert(!has_nul(raw@));
    }
    None
}

/// Decodes the raw identifier bytes: the text before the first nul, read as
/// UTF-8. Yields nothing when no terminator is there or the prefix is not
/// valid UTF-8; the boundary caller must treat that as a fatal fault.
pub fn decode_identifier(raw: &Vec<u8>) -> (r: Option<String>)
    ensures
        r is Some <==> has_nul(raw@) && utf8_decoding(identifier_prefix(raw@)) is Some,
        r matches Some(s) ==> utf8_decoding(identifier_prefix(raw@)) == Some(s@),
{
    match split_at_nul(raw) {
        Some(prefix) => utf8_to_string(prefix.as_slice()),
        None => None,
    }
}

} // verus!
