//! Base64 with the URL-safe alphabet and no padding.

use vstd::prelude::*;
use base64::Engine;
use crate::ascii::ascii_chars;

verus! {

/// The character of the URL-safe alphabet, as an ASCII byte, that stands for a
/// six-bit value: `A`-`Z`, `a`-`z`, `0`-`9`, then `-` and `_`.
pub open spec fn symbol(v: int) -> u8
    recommends
        0 <= v < 64,
{
    if v < 26 {
        (0x41 + v) as u8
    } else if v < 52 {
        (0x61 + v - 26) as u8
    } else if v < 62 {
        (0x30 + v - 52) as u8
    } else if v == 62 {
        0x2d
    } else {
        0x5f
    }
}

/// Whether a byte is a character of the URL-safe alphabet.
pub open spec fn is_symbol(c: u8) -> bool {
    (0x41 <= c <= 0x5a) || (0x61 <= c <= 0x7a) || (0x30 <= c <= 0x39) || c == 0x2d || c == 0x5f
}

/// The six-bit value that a character of the alphabet stands for.
pub open spec fn symbol_value(c: u8) -> int
    recommends
        is_symbol(c),
{
    if 0x41 <= c <= 0x5a {
        c - 0x41
    } else if 0x61 <= c <= 0x7a {
        c - 0x61 + 26
    } else if 0x30 <= c <= 0x39 {
        c - 0x30 + 52
    } else if c == 0x2d {
        62
    } else {
        63
    }
}

/// The encoding of a byte string: each group of three bytes gives four
/// characters, most significant bits first; a last group of one byte gives two
/// characters and one of two bytes gives three, the missing bits being zero.
pub open spec fn encode_bytes(s: Seq<u8>) -> Seq<u8>
    decreases s.len(),
{
    if s.len() == 0 {
        Seq::empty()
    } else if s.len() == 1 {
        seq![symbol(s[0] as int / 4), symbol((s[0] % 4) * 16)]
    } else if s.len() == 2 {
        seq![symbol(s[0] as int / 4), symbol((s[0] % 4) * 16 + s[1] / 16), symbol((s[1] % 16) * 4)]
    } else {
        seq![
            symbol(s[0] as int / 4),
            symbol((s[0] % 4) * 16 + s[1] / 16),
            symbol((s[1] % 16) * 4 + s[2] / 64),
            symbol(s[2] as int % 64),
        ] + encode_bytes(s.skip(3))
    }
}

/// The encoding of a byte string, as the characters of the encoded string.
pub open spec fn encoding(bytes: Seq<u8>) -> Seq<char> {
    ascii_chars(encode_bytes(bytes))
}

/// The number of characters that encode `n` bytes.
pub open spec fn encoded_len(n: nat) -> nat {
    (4 * n + 2) / 3
}

/// The byte string that an encoding stands for: four characters give three
/// bytes, a last group of two characters one byte and of three characters two.
pub open spec fn decode_bytes(e: Seq<u8>) -> Seq<u8>
    decreases e.len(),
{
    if e.len() < 2 {
        Seq::empty()
    } else if e.len() == 2 {
        seq![(symbol_value(e[0]) * 4 + symbol_value(e[1]) / 16) as u8]
    } else if e.len() == 3 {
        seq![
            (symbol_value(e[0]) * 4 + symbol_value(e[1]) / 16) as u8,
            ((symbol_value(e[1]) % 16) * 16 + symbol_value(e[2]) / 4) as u8,
        ]
    } else {
        seq![
            (symbol_value(e[0]) * 4 + symbol_value(e[1]) / 16) as u8,
            ((symbol_value(e[1]) % 16) * 16 + symbol_value(e[2]) / 4) as u8,
            ((symbol_value(e[2]) % 4) * 64 + symbol_value(e[3])) as u8,
        ] + decode_bytes(e.skip(4))
    }
}

/// Calls `Engine::encode` on `base64::engine::general_purpose::URL_SAFE_NO_PAD`.
/// Trusted: the result is the unpadded encoding of the argument in the URL-safe
/// alphabet. The call panics where the encoded length does not fit in `usize`,
/// which the precondition excludes.
#[verifier::external_body]
pub(crate) fn encode_url_safe_no_pad(bytes: &[u8]) -> (r: String)
    requires
        encoded_len(bytes@.len()) <= usize::MAX,
    ensures
        r@ == encoding(bytes@),
{
    base64::engine::general_purpose::URL_SAFE_NO_PAD.encode(bytes)
}

/// A six-bit value and its character stand for each other.
pub proof fn lemma_symbol_value(v: int)
    requires
        0 <= v < 64,
    ensures
        is_symbol(symbol(v)),
        symbol_value(symbol(v)) == v,
{
}

/// An encoding has the length that [`encoded_len`] gives and holds only
/// characters of the alphabet: no padding, nothing that a URL must escape.
pub proof fn lemma_encoding_shape(s: Seq<u8>)
    ensures
        encode_bytes(s).len() == encoded_len(s.len()),
        forall|i: int| 0 <= i < encode_bytes(s).len() ==> is_symbol(#[trigger] encode_bytes(s)[i]),
    decreases s.len(),
{
    if s.len() >= 3 {
        let rest = s.skip(3);
        lemma_encoding_shape(rest);
        let e = encode_bytes(s);
        assert forall|i: int| 0 <= i < e.len() implies is_symbol(#[trigger] e[i]) by {
            if i >= 4 {
                assert(e[i] == encode_bytes(rest)[i - 4]);
            }
        }
    }
}

/// Decoding inverts encoding, on every byte string.
pub proof fn lemma_decode_inverts_encode(s: Seq<u8>)
    ensures
        decode_bytes(encode_bytes(s)) == s,
    decreases s.len(),
{
    let e = encode_bytes(s);
    if s.len() == 0 {
        assert(decode_bytes(e) =~= s);
    } else if s.len() == 1 {
        assert(decode_bytes(e) =~= s);
    } else if s.len() == 2 {
        assert(decode_bytes(e) =~= s);
    } else {
        let rest = s.skip(3);
        lemma_decode_inverts_encode(rest);
        lemma_encoding_shape(rest);
        assert(e.skip(4) =~= encode_bytes(rest));
        assert(e.len() >= 4);
        assert(decode_bytes(e) =~= s);
    }
}

} // verus!
