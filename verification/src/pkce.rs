//! PKCE credentials: a random code verifier and the S256 challenge derived from it.

use vstd::prelude::*;
use vstd::utf8::*;
use vstd::string::*;
use rand::Rng;
use sha2::Digest;
use crate::ascii::{lemma_ascii_chars_bytes, lemma_ascii_chars_injective};
use crate::base64url::{
    decode_bytes,
    encode_bytes,
    encode_url_safe_no_pad,
    encoding,
    is_symbol,
    lemma_decode_inverts_encode,
    lemma_encoding_shape,
};

verus! {

/// Number of random bytes behind a code verifier.
pub const ENTROPY_LEN: usize = 32;

/// Number of characters of a code verifier, and of a challenge.
pub const VERIFIER_LEN: usize = 43;

/// Number of bytes of a SHA-256 digest.
pub const DIGEST_LEN: usize = 32;

/// The SHA-256 digest of a byte string.
pub uninterp spec fn sha256(data: Seq<u8>) -> Seq<u8>;

/// Whether a text is a code verifier: the encoding of some 32 bytes.
pub open spec fn is_verifier(text: Seq<char>) -> bool {
    exists|entropy: Seq<u8>| entropy.len() == ENTROPY_LEN && text == #[trigger] encoding(entropy)
}

/// The S256 challenge of a verifier: the encoding of the digest of the
/// verifier's own characters, as UTF-8, not of the bytes they encode.
pub open spec fn challenge_of(verifier: Seq<char>) -> Seq<char> {
    encoding(sha256(encode_utf8(verifier)))
}

/// Whether a character belongs to the URL-safe base64 alphabet.
pub open spec fn is_url_safe_char(c: char) -> bool {
    ('A' <= c <= 'Z') || ('a' <= c <= 'z') || ('0' <= c <= '9') || c == '-' || c == '_'
}

/// A verifier together with its challenge.
#[derive(Debug, Clone, PartialEq, Eq)]
pub struct PkceCredential {
    pub verifier: String,
    pub challenge: String,
}

impl PkceCredential {
    /// The verifier is one, and the challenge is the one derived from it.
    pub open spec fn wf(&self) -> bool {
        &&& is_verifier(self.verifier@)
        &&& self.challenge@ == challenge_of(self.verifier@)
        &&& self.challenge@.len() == VERIFIER_LEN
    }

    /// A fresh credential.
    pub fn generate() -> (r: PkceCredential)
        ensures
            r.wf(),
    {
        let verifier = generate_code_verifier();
        let challenge = generate_code_challenge(verifier.as_str());
        PkceCredential { verifier, challenge }
    }
}

/// Calls `Rng::gen::<u8>` on `rand::thread_rng()`. Nothing is claimed of the byte.
#[verifier::external_body]
fn random_byte() -> u8 {
    rand::thread_rng().gen::<u8>()
}

/// Calls `Digest::digest` of `sha2::Sha256`. Trusted: the result is the SHA-256
/// digest of the argument, which has 32 bytes.
#[verifier::external_body]
fn sha256_digest(data: &[u8]) -> (r: Vec<u8>)
    ensures
        r@ == sha256(data@),
        r@.len() == DIGEST_LEN,
{
    sha2::Sha256::digest(data).to_vec()
}

/// The verifier made from the given random bytes.
pub fn verifier_from_entropy(entropy: &[u8]) -> (r: String)
    requires
        entropy@.len() == ENTROPY_LEN,
    ensures
        r@ == encoding(entropy@),
        is_verifier(r@),
{
    encode_url_safe_no_pad(entropy)
}

/// A fresh verifier: 32 bytes from the thread's random generator, encoded.
/// Which bytes they are is not known; whatever they are, the verifier has 43
/// characters of the URL-safe alphabet.
pub fn generate_code_verifier() -> (r: String)
    ensures
        is_verifier(r@),
        r@.len() == VERIFIER_LEN,
        forall|i: int| 0 <= i < r@.len() ==> is_url_safe_char(#[trigger] r@[i]),
{
    let mut entropy: Vec<u8> = Vec::new();
    while entropy.len() < ENTROPY_LEN
        invariant
            entropy@.len() <= ENTROPY_LEN,
        decreases ENTROPY_LEN - entropy@.len(),
    {
        entropy.push(random_byte());
    }
    proof {
        lemma_encoding_of_32_bytes(entropy@);
    }
    verifier_from_entropy(entropy.as_slice())
}

/// The S256 challenge of a verifier.
pub fn generate_code_challenge(verifier: &str) -> (r: String)
    ensures
        r@ == challenge_of(verifier@),
        r@.len() == VERIFIER_LEN,
        forall|i: int| 0 <= i < r@.len() ==> is_url_safe_char(#[trigger] r@[i]),
{
    let digest = sha256_digest(verifier.as_bytes());
    proof {
        lemma_encoding_of_32_bytes(digest@);
    }
    encode_url_safe_no_pad(digest.as_slice())
}

/// An encoding of 32 bytes has 43 characters, all of the URL-safe alphabet (so
/// none is `=`), and decodes to the 32 bytes it was made from.
pub proof fn lemma_encoding_of_32_bytes(bytes: Seq<u8>)
    requires
        bytes.len() == 32,
    ensures
        encoding(bytes).len() == VERIFIER_LEN,
        forall|i: int| 0 <= i < encoding(bytes).len() ==> is_url_safe_char(#[trigger] encoding(bytes)[i]),
        encode_utf8(encoding(bytes)) == encode_bytes(bytes),
        decode_bytes(encode_utf8(encoding(bytes))) == bytes,
{
    let e = encode_bytes(bytes);
    lemma_encoding_shape(bytes);
    lemma_decode_inverts_encode(bytes);
    assert forall|i: int| 0 <= i < e.len() implies #[trigger] e[i] < 0x80 by {
        assert(is_symbol(e[i]));
    }
    lemma_ascii_chars_bytes(e);
    assert forall|i: int| 0 <= i < encoding(bytes).len() implies is_url_safe_char(
        #[trigger] encoding(bytes)[i],
    ) by {
        assert(is_symbol(e[i]));
        assert(encoding(bytes)[i] == e[i] as char);
    }
}

/// Every verifier has 43 characters of the URL-safe alphabet, none of them the
/// padding character, and the bytes that it decodes to are 32.
pub proof fn lemma_verifier_shape(verifier: Seq<char>)
    requires
        is_verifier(verifier),
    ensures
        verifier.len() == VERIFIER_LEN,
        forall|i: int| 0 <= i < verifier.len() ==> is_url_safe_char(#[trigger] verifier[i]),
        forall|i: int| 0 <= i < verifier.len() ==> #[trigger] verifier[i] != '=',
        decode_bytes(encode_utf8(verifier)).len() == ENTROPY_LEN,
{
    let entropy = choose|entropy: Seq<u8>|
        entropy.len() == ENTROPY_LEN && verifier == #[trigger] encoding(entropy);
    lemma_encoding_of_32_bytes(entropy);
    assert forall|i: int| 0 <= i < verifier.len() implies #[trigger] verifier[i] != '=' by {
        assert(is_url_safe_char(verifier[i]));
    }
}

/// The challenge depends on the verifier alone: equal verifiers have equal
/// challenges.
pub proof fn lemma_challenge_deterministic(first: Seq<char>, second: Seq<char>)
    requires
        first == second,
    ensures
        challenge_of(first) == challenge_of(second),
{
}

/// Two verifiers share a challenge only where their digests collide.
pub proof fn lemma_challenge_collision(first: Seq<char>, second: Seq<char>)
    ensures
        challenge_of(first) == challenge_of(second) <==> sha256(encode_utf8(first)) == sha256(
            encode_utf8(second),
        ),
{
    let a = sha256(encode_utf8(first));
    let b = sha256(encode_utf8(second));
    if challenge_of(first) == challenge_of(second) {
        lemma_ascii_chars_injective(encode_bytes(a), encode_bytes(b));
        lemma_decode_inverts_encode(a);
        lemma_decode_inverts_encode(b);
    }
}

} // verus!
