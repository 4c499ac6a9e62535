//! Cache keys: the lowercase hexadecimal SHA-256 digest of a source path's
//! UTF-8 bytes, and the name of the cache entry stored under that key.

use vstd::prelude::*;

verus! {

/// The SHA-256 digest of a byte sequence.
pub uninterp spec fn sha256_of(data: Seq<u8>) -> Seq<u8>;

/// Relies on `sha2::Sha256::digest`: the SHA-256 digest of `data`, which the
/// output type fixes at 32 bytes.
#[verifier::external_body]
fn sha256(data: &[u8]) -> (r: Vec<u8>)
    ensures
        r@ == sha256_of(data@),
        r@.len() == 32,
{
    <sha2::Sha256 as sha2::Digest>::digest(data).to_vec()
}

/// The sixteen lowercase hexadecimal digits, in order of value.
pub open spec fn hex_alphabet() -> Seq<char> {
    seq!['0', '1', '2', '3', '4', '5', '6', '7', '8', '9', 'a', 'b', 'c', 'd', 'e', 'f']
}

/// Two lowercase hex digits per byte, high nibble first.
pub open spec fn hex_of(bytes: Seq<u8>) -> Seq<char>
    decreases bytes.len(),
{
    if bytes.len() == 0 {
        Seq::empty()
    } else {
        let b = bytes.last() as int;
        hex_of(bytes.drop_last()) + seq![hex_alphabet()[b / 16int], hex_alphabet()[b % 16int]]
    }
}

/// The bytes of a string in UTF-8.
pub open spec fn utf8_of(s: Seq<char>) -> Seq<u8> {
    vstd::utf8::encode_utf8(s)
}

/// The cache key of a source reference.
pub open spec fn cache_key_of(source: Seq<char>) -> Seq<char> {
    hex_of(sha256_of(utf8_of(source)))
}

/// The file name of the cache entry of a source reference.
pub open spec fn entry_name_of(source: Seq<char>) -> Seq<char> {
    cache_key_of(source) + ".jpg"@
}

pub proof fn lemma_hex_len(bytes: Seq<u8>)
    ensures
        hex_of(bytes).len() == 2 * bytes.len(),
    decreases bytes.len(),
{
    if bytes.len() > 0 {
        lemma_hex_len(bytes.drop_last());
    }
}

/// A one-character string holding the hex digit of value `v`.
fn hex_digit(v: u8) -> (r: &'static str)
    requires
        v < 16,
    ensures
        r@ == seq![hex_alphabet()[v as int]],
{
    let digits = "0123456789abcdef";
    proof {
        reveal_strlit("0123456789abcdef");
    }
    assert(digits.is_ascii());
    let r = digits.substring_ascii(v as usize, v as usize + 1);
    assert(r@ =~= seq![hex_alphabet()[v as int]]);
    r
}

/// Renders bytes as lowercase hex, two digits per byte.
pub fn to_hex(bytes: &[u8]) -> (r: String)
    ensures
        r@ == hex_of(bytes@),
{
    let mut out = String::new();
    let mut i: usize = 0;
    while i < bytes.len()
        invariant
            i <= bytes@.len(),
            out@ == hex_of(bytes@.subrange(0, i as int)),
        decreases bytes@.len() - i,
    {
        let b = bytes[i];
        out.append(hex_digit(b / 16));
        out.append(hex_digit(b % 16));
        proof {
            let next = bytes@.subrange(0, i + 1);
            assert(next.drop_last() =~= bytes@.subrange(0, i as int));
            assert(next.last() == b);
        }
        i = i + 1;
    }
    assert(bytes@.subrange(0, bytes@.len() as int) =~= bytes@);
    out
}

/// The cache key of `source`: the SHA-256 digest of its UTF-8 bytes, in
/// lowercase hex (64 characters).
pub fn cache_key(source: &str) -> (r: String)
    ensures
        r@ == cache_key_of(source@),
        r@.len() == 64,
{
    let digest = sha256(source.as_bytes());
    proof {
        lemma_hex_len(digest@);
    }
    to_hex(digest.as_slice())
}

/// The file name of the cache entry of `source`: its cache key followed by
/// `.jpg`.
pub fn entry_name(source: &str) -> (r: String)
    ensures
        r@ == entry_name_of(source@),
{
    let key = cache_key(source);
    key.concat(".jpg")
}

/// Equal source references have equal cache keys and equal entry names.
pub proof fn lemma_key_deterministic(a: Seq<char>, b: Seq<char>)
    requires
        a == b,
    ensures
        cache_key_of(a) == cache_key_of(b),
        entry_name_of(a) == entry_name_of(b),
{
}

} // verus!
