//! SHA-256 hashes of byte strings, their hexadecimal text, and comparing a
//! hash with such a text.
use vstd::prelude::*;
use crate::text::push_char;
use sha2::{Digest, Sha256};

verus! {

/// The SHA-256 digest of `data`.
pub uninterp spec fn sha256(data: Seq<u8>) -> Seq<u8>;

/// The SHA-256 digest of `bytes`.
///
/// Calls `sha2::Sha256::digest` (a fresh hasher, one update, finalize). The
/// digest is a function of the bytes alone, named `sha256`; SHA-256 digests
/// are 32 bytes long.
#[verifier::external_body]
fn sha256_digest(bytes: &[u8]) -> (r: Vec<u8>)
    ensures
        r@ == sha256(bytes@),
        r@.len() == 32,
{
    Sha256::digest(bytes).to_vec()
}

/// The SHA-256 hash of `text`.
pub fn calculate_hash(text: &[u8]) -> (r: Vec<u8>)
    ensures
        r@ == sha256(text@),
        r@.len() == 32,
{
    calculate_hash_from_bytes(text)
}

/// The SHA-256 hash of `bytes`.
pub fn calculate_hash_from_bytes(bytes: &[u8]) -> (r: Vec<u8>)
    ensures
        r@ == sha256(bytes@),
        r@.len() == 32,
{
    sha256_digest(bytes)
}

/// The upper-case hexadecimal digit of `d` (below 16).
pub open spec fn hex_digit(d: int) -> char {
    if d < 10 {
        ('0' as int + d) as char
    } else {
        ('A' as int + d - 10) as char
    }
}

/// Each byte written as two upper-case hexadecimal digits, most significant first.
pub open spec fn hex_upper(bytes: Seq<u8>) -> Seq<char>
    decreases bytes.len(),
{
    if bytes.len() == 0 {
        Seq::empty()
    } else {
        hex_upper(bytes.drop_last()) + seq![hex_digit(bytes.last() as int / 16), hex_digit(bytes.last() as int % 16)]
    }
}

fn hex_digit_char(d: u8) -> (r: char)
    requires
        d < 16,
    ensures
        r == hex_digit(d as int),
{
    if d < 10 {
        ((48u8 + d) as char)
    } else {
        ((55u8 + d) as char)
    }
}


/// The hash written as upper-case hexadecimal text, two digits per byte.
pub fn hash_to_string(hash: &[u8]) -> (r: String)
    ensures
        r@ == hex_upper(hash@),
{
    let mut s = String::new();
    let mut i: usize = 0;
    while i < hash.len()
        invariant
            i <= hash@.len(),
            s@ == hex_upper(hash@.take(i as int)),
        decreases hash@.len() - i,
    {
        let b = hash[i];
        push_char(&mut s, hex_digit_char(b / 16));
        push_char(&mut s, hex_digit_char(b % 16));
        proof {
            assert(hash@.take(i as int + 1).drop_last() =~= hash@.take(i as int));
            assert(s@ =~= hex_upper(hash@.take(i as int + 1)));
        }
        i = i + 1;
    }
    assert(hash@.take(hash@.len() as int) =~= hash@);
    s
}

/// `b` with an upper-case ASCII letter turned into lower case.
pub open spec fn ascii_lower(b: u8) -> u8 {
    if 65 <= b <= 90 {
        (b + 32) as u8
    } else {
        b
    }
}

/// `a` and `b` are equal ignoring the case of ASCII letters, as
/// `<[u8]>::eq_ignore_ascii_case` tests.
pub open spec fn eq_ignore_ascii_case(a: Seq<u8>, b: Seq<u8>) -> bool {
    a.len() == b.len() && forall|i: int| 0 <= i < a.len() ==> ascii_lower(#[trigger] a[i]) == ascii_lower(b[i])
}

/// The text of `chars` as bytes, each character taken as one byte.
pub open spec fn ascii_bytes(chars: Seq<char>) -> Seq<u8> {
    Seq::new(chars.len(), |i: int| chars[i] as u8)
}

fn lower(b: u8) -> (r: u8)
    ensures
        r == ascii_lower(b),
{
    if 65 <= b && b <= 90 {
        b + 32
    } else {
        b
    }
}

proof fn lemma_hex_upper_len(bytes: Seq<u8>)
    ensures
        hex_upper(bytes).len() == 2 * bytes.len(),
    decreases bytes.len(),
{
    if bytes.len() > 0 {
        lemma_hex_upper_len(bytes.drop_last());
    }
}

proof fn lemma_hex_upper_index(bytes: Seq<u8>, i: int)
    requires
        0 <= i < bytes.len(),
    ensures
        hex_upper(bytes)[2 * i] == hex_digit(bytes[i] as int / 16),
        hex_upper(bytes)[2 * i + 1] == hex_digit(bytes[i] as int % 16),
    decreases bytes.len(),
{
    lemma_hex_upper_len(bytes.drop_last());
    if i < bytes.len() - 1 {
        lemma_hex_upper_index(bytes.drop_last(), i);
    }
}

/// Whether `expected_hash` is the hexadecimal text of `actual_hash`, in
/// either letter case.
pub fn compare_hashes(expected_hash: &[u8], actual_hash: &[u8]) -> (r: bool)
    requires
        2 * actual_hash@.len() <= usize::MAX,
    ensures
        r == eq_ignore_ascii_case(expected_hash@, ascii_bytes(hex_upper(actual_hash@))),
{
    let ghost hex = ascii_bytes(hex_upper(actual_hash@));
    proof {
        lemma_hex_upper_len(actual_hash@);
    }
    if expected_hash.len() != 2 * actual_hash.len() {
        return false;
    }
    let mut i: usize = 0;
    while i < actual_hash.len()
        invariant
            i <= actual_hash@.len(),
            expected_hash@.len() == 2 * actual_hash@.len(),
            2 * actual_hash@.len() <= usize::MAX,
            hex == ascii_bytes(hex_upper(actual_hash@)),
            hex.len() == expected_hash@.len(),
            forall|j: int| 0 <= j < 2 * i ==> ascii_lower(#[trigger] expected_hash@[j]) == ascii_lower(hex[j]),
        decreases actual_hash@.len() - i,
    {
        let b = actual_hash[i];
        proof {
            lemma_hex_upper_index(actual_hash@, i as int);
        }
        let hi = hex_digit_char(b / 16) as u8;
        let lo = hex_digit_char(b % 16) as u8;
        assert(hi == hex[2 * i as int]);
        assert(lo == hex[2 * i as int + 1]);
        if lower(expected_hash[2 * i]) != lower(hi) {
            return false;
        }
        if lower(expected_hash[2 * i + 1]) != lower(lo) {
            return false;
        }
        i = i + 1;
    }
    true
}

/// A hash compares equal to its own hexadecimal text, in upper case as
/// `hash_to_string` writes it and in lower case too.
pub proof fn lemma_hash_matches_own_text(hash: Seq<u8>)
    ensures
        eq_ignore_ascii_case(ascii_bytes(hex_upper(hash)), ascii_bytes(hex_upper(hash))),
        eq_ignore_ascii_case(
            Seq::new(ascii_bytes(hex_upper(hash)).len(), |i: int| ascii_lower(ascii_bytes(hex_upper(hash))[i])),
            ascii_bytes(hex_upper(hash)),
        ),
        hex_upper(hash).len() == 2 * hash.len(),
{
    lemma_hex_upper_len(hash);
    let t = ascii_bytes(hex_upper(hash));
    let l = Seq::new(t.len(), |i: int| ascii_lower(t[i]));
    assert forall|i: int| 0 <= i < l.len() implies ascii_lower(#[trigger] l[i]) == ascii_lower(t[i]) by {
        let b = t[i];
        assert(ascii_lower(ascii_lower(b)) == ascii_lower(b));
    }
}

} // verus!
