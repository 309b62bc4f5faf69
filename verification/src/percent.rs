//! Percent-encoding of URL query components, as bytes.

use vstd::prelude::*;
use vstd::utf8::*;
use vstd::string::*;
use crate::ascii::{ascii_chars, lemma_ascii_chars_bytes};

verus! {

/// The bytes that percent-encoding leaves as they are: ASCII letters, digits and `-`, `.`, `_`, `~`.
pub open spec fn is_unreserved(b: u8) -> bool {
    (0x30 <= b <= 0x39) || (0x41 <= b <= 0x5a) || (0x61 <= b <= 0x7a) || b == 0x2d || b == 0x2e
        || b == 0x5f || b == 0x7e
}

/// The upper-case hexadecimal digit, as an ASCII byte, of a value below 16.
pub open spec fn hex_digit_upper(n: u8) -> u8
    recommends
        n < 16,
{
    if n < 10 {
        (0x30 + n) as u8
    } else {
        (0x41 + n - 10) as u8
    }
}

/// What one byte becomes: itself, or `%` and its two upper-case hexadecimal digits.
pub open spec fn escape_byte(b: u8) -> Seq<u8> {
    if is_unreserved(b) {
        seq![b]
    } else {
        seq![0x25u8, hex_digit_upper(b / 16), hex_digit_upper(b % 16)]
    }
}

/// The percent-encoding of a byte string: each byte escaped in turn.
pub open spec fn percent_encode(s: Seq<u8>) -> Seq<u8>
    decreases s.len(),
{
    if s.len() == 0 {
        Seq::empty()
    } else {
        escape_byte(s[0]) + percent_encode(s.drop_first())
    }
}

/// Whether a byte is an ASCII hexadecimal digit of either case.
pub open spec fn is_hex_digit(d: u8) -> bool {
    (0x30 <= d <= 0x39) || (0x41 <= d <= 0x46) || (0x61 <= d <= 0x66)
}

/// The value of an ASCII hexadecimal digit.
pub open spec fn hex_value(d: u8) -> u8
    recommends
        is_hex_digit(d),
{
    if 0x30 <= d <= 0x39 {
        (d - 0x30) as u8
    } else if 0x41 <= d <= 0x46 {
        (d - 0x41 + 10) as u8
    } else {
        (d - 0x61 + 10) as u8
    }
}

/// Whether an escape of `%` and two hexadecimal digits stands at the start of `s`.
pub open spec fn starts_with_escape(s: Seq<u8>) -> bool {
    s.len() >= 3 && s[0] == 0x25 && is_hex_digit(s[1]) && is_hex_digit(s[2])
}

/// The percent-decoding of a byte string. An escape becomes the byte it names;
/// every other byte, a `%` that starts no escape included, stands for itself.
pub open spec fn percent_decode(s: Seq<u8>) -> Seq<u8>
    decreases s.len(),
{
    if s.len() == 0 {
        Seq::empty()
    } else if starts_with_escape(s) {
        seq![(hex_value(s[1]) * 16 + hex_value(s[2])) as u8] + percent_decode(s.skip(3))
    } else {
        seq![s[0]] + percent_decode(s.drop_first())
    }
}

/// The percent-encoding of a text, as the characters of the encoded string.
pub open spec fn encoded_component(text: Seq<char>) -> Seq<char> {
    ascii_chars(percent_encode(encode_utf8(text)))
}

/// What decoding a component gives: the text that the decoded bytes spell,
/// or nothing where they are not UTF-8.
pub open spec fn decoded_component(raw: Seq<u8>) -> Option<Seq<char>> {
    if valid_utf8(percent_decode(raw)) {
        Some(decode_utf8(percent_decode(raw)))
    } else {
        None
    }
}

/// Calls `urlencoding::encode`. Trusted: the result is the percent-encoding of the
/// argument's UTF-8 bytes, in which only unreserved bytes stay unescaped and the
/// hexadecimal digits are upper case.
#[verifier::external_body]
pub(crate) fn encode_component(text: &str) -> (r: String)
    ensures
        r@ == encoded_component(text@),
{
    urlencoding::encode(text).into_owned()
}

/// Calls `urlencoding::decode`. Trusted: the escapes of the argument's bytes are
/// replaced as [`percent_decode`] says, and the call succeeds exactly where the
/// bytes that result are UTF-8.
#[verifier::external_body]
pub(crate) fn decode_component(raw: &str) -> (r: Option<String>)
    ensures
        r is Some <==> decoded_component(raw.spec_bytes()) is Some,
        r is Some ==> r->0@ == decoded_component(raw.spec_bytes())->0,
{
    match urlencoding::decode(raw) {
        Ok(text) => Some(text.into_owned()),
        Err(_) => None,
    }
}

/// Every byte of an encoding is an unreserved byte or a `%`, so an encoding is
/// ASCII and holds no delimiter of a query string.
pub proof fn lemma_encoding_is_plain(s: Seq<u8>)
    ensures
        forall|i: int|
            0 <= i < percent_encode(s).len() ==> {
                let b = #[trigger] percent_encode(s)[i];
                is_unreserved(b) || b == 0x25
            },
    decreases s.len(),
{
    if s.len() > 0 {
        lemma_encoding_is_plain(s.drop_first());
        let head = escape_byte(s[0]);
        let tail = percent_encode(s.drop_first());
        assert forall|i: int| 0 <= i < percent_encode(s).len() implies {
            let b = #[trigger] percent_encode(s)[i];
            is_unreserved(b) || b == 0x25
        } by {
            if i >= head.len() {
                assert(percent_encode(s)[i] == tail[i - head.len()]);
            }
        }
    }
}

/// Decoding an escaped byte in front of anything gives the byte back and goes on
/// with what follows.
pub proof fn lemma_decode_escaped_byte(b: u8, rest: Seq<u8>)
    ensures
        percent_decode(escape_byte(b) + rest) == seq![b] + percent_decode(rest),
{
    let whole = escape_byte(b) + rest;
    if is_unreserved(b) {
        assert(whole[0] == b);
        assert(!starts_with_escape(whole));
        assert(whole.drop_first() =~= rest);
    } else {
        assert(whole[0] == 0x25 && whole[1] == hex_digit_upper(b / 16) && whole[2]
            == hex_digit_upper(b % 16));
        assert(starts_with_escape(whole));
        assert(whole.skip(3) =~= rest);
        assert(hex_value(whole[1]) * 16 + hex_value(whole[2]) == b);
    }
}

/// Decoding inverts encoding, on every byte string.
pub proof fn lemma_decode_inverts_encode(s: Seq<u8>)
    ensures
        percent_decode(percent_encode(s)) == s,
    decreases s.len(),
{
    if s.len() == 0 {
        assert(percent_decode(percent_encode(s)) =~= s);
    } else {
        lemma_decode_inverts_encode(s.drop_first());
        lemma_decode_escaped_byte(s[0], percent_encode(s.drop_first()));
        assert(seq![s[0]] + s.drop_first() =~= s);
    }
}

/// The UTF-8 bytes of an encoded component are the percent-encoding of the
/// text's UTF-8 bytes.
pub proof fn lemma_encoded_component_bytes(text: Seq<char>)
    ensures
        encode_utf8(encoded_component(text)) == percent_encode(encode_utf8(text)),
{
    let enc = percent_encode(encode_utf8(text));
    lemma_encoding_is_plain(encode_utf8(text));
    assert forall|i: int| 0 <= i < enc.len() implies #[trigger] enc[i] < 0x80 by {
        let b = enc[i];
        assert(is_unreserved(b) || b == 0x25);
    }
    lemma_ascii_chars_bytes(enc);
}

/// An encoded component decodes to the text it was made from, whatever the text.
pub proof fn lemma_component_round_trip(text: Seq<char>)
    ensures
        decoded_component(encode_utf8(encoded_component(text))) == Some(text),
        decoded_component(percent_encode(encode_utf8(text))) == Some(text),
{
    lemma_encoded_component_bytes(text);
    lemma_decode_inverts_encode(encode_utf8(text));
    encode_utf8_valid_utf8(text);
    encode_utf8_decode_utf8(text);
}

} // verus!
