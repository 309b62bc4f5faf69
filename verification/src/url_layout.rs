//! How the fixed text of the authorization URL parts into names, values and
//! delimiters.

use vstd::prelude::*;
use vstd::utf8::*;
use crate::ascii::{ascii_bytes, lemma_ascii_text_bytes, lemma_bytes_of_concat};
use crate::percent::is_unreserved;
use crate::query::{join_params, param_bytes, PARAM_SEPARATOR, QUERY_MARK, VALUE_SEPARATOR};
use crate::split::lacks;

verus! {

/// Whether a character is an ASCII letter, a digit or `_`.
pub open spec fn is_word_char(c: char) -> bool {
    ('a' <= c <= 'z') || ('A' <= c <= 'Z') || ('0' <= c <= '9') || c == '_'
}

/// Whether the bytes of a text are its characters, one byte each, and none of
/// them is a delimiter of a query string.
pub open spec fn is_word(text: Seq<char>) -> bool {
    &&& encode_utf8(text) == ascii_bytes(text)
    &&& lacks(encode_utf8(text), QUERY_MARK)
    &&& lacks(encode_utf8(text), PARAM_SEPARATOR)
    &&& lacks(encode_utf8(text), VALUE_SEPARATOR)
}

/// A text of letters, digits and `_` is a word.
pub(crate) proof fn lemma_word(text: Seq<char>)
    requires
        forall|i: int| 0 <= i < text.len() ==> is_word_char(#[trigger] text[i]),
    ensures
        is_word(text),
{
    assert(is_ascii_chars(text));
    lemma_ascii_text_bytes(text);
    assert forall|i: int| 0 <= i < ascii_bytes(text).len() implies is_unreserved(
        #[trigger] ascii_bytes(text)[i],
    ) by {
        assert(is_word_char(text[i]));
    }
}

/// A byte string of unreserved bytes and `%` holds no delimiter of a query string.
pub(crate) proof fn lemma_plain_lacks_delimiters(s: Seq<u8>)
    requires
        forall|i: int| 0 <= i < s.len() ==> is_unreserved(#[trigger] s[i]) || s[i] == 0x25,
    ensures
        lacks(s, QUERY_MARK),
        lacks(s, PARAM_SEPARATOR),
        lacks(s, VALUE_SEPARATOR),
{
}

/// The names and fixed values of the URL's parameters are ASCII words: their
/// bytes are their characters, and `?`, `&` and `=` are not among them.
pub(crate) proof fn lemma_fixed_words()
    ensures
        is_word("client_id"@),
        is_word("redirect_uri"@),
        is_word("response_type"@),
        is_word("scope"@),
        is_word("access_type"@),
        is_word("prompt"@),
        is_word("code_challenge"@),
        is_word("code_challenge_method"@),
        is_word("code"@),
        is_word("offline"@),
        is_word("consent"@),
        is_word("S256"@),
        encode_utf8("client_id"@).len() == 9,
        encode_utf8("redirect_uri"@).len() == 12,
        encode_utf8("response_type"@).len() == 13,
        encode_utf8("scope"@).len() == 5,
        encode_utf8("access_type"@).len() == 11,
        encode_utf8("prompt"@).len() == 6,
        encode_utf8("code_challenge"@).len() == 14,
        encode_utf8("code_challenge_method"@).len() == 21,
{
    reveal_strlit("client_id");
    reveal_strlit("redirect_uri");
    reveal_strlit("response_type");
    reveal_strlit("scope");
    reveal_strlit("access_type");
    reveal_strlit("prompt");
    reveal_strlit("code_challenge");
    reveal_strlit("code_challenge_method");
    reveal_strlit("code");
    reveal_strlit("offline");
    reveal_strlit("consent");
    reveal_strlit("S256");
    lemma_word("client_id"@);
    lemma_word("redirect_uri"@);
    lemma_word("response_type"@);
    lemma_word("scope"@);
    lemma_word("access_type"@);
    lemma_word("prompt"@);
    lemma_word("code_challenge"@);
    lemma_word("code_challenge_method"@);
    lemma_word("code"@);
    lemma_word("offline"@);
    lemma_word("consent"@);
    lemma_word("S256"@);
}

/// The bytes of the fixed pieces of the URL, parted into names, values and
/// delimiters.
pub(crate) proof fn lemma_fixed_pieces()
    ensures
        encode_utf8("?client_id="@) == seq![QUERY_MARK] + encode_utf8("client_id"@)
            + seq![VALUE_SEPARATOR],
        encode_utf8("&redirect_uri="@) == seq![PARAM_SEPARATOR] + encode_utf8("redirect_uri"@)
            + seq![VALUE_SEPARATOR],
        encode_utf8("&response_type=code&scope="@) == seq![PARAM_SEPARATOR] + encode_utf8(
            "response_type"@,
        ) + seq![VALUE_SEPARATOR] + encode_utf8("code"@) + seq![PARAM_SEPARATOR] + encode_utf8(
            "scope"@,
        ) + seq![VALUE_SEPARATOR],
        encode_utf8("&access_type=offline&prompt=consent&code_challenge="@) == seq![
            PARAM_SEPARATOR,
        ] + encode_utf8("access_type"@) + seq![VALUE_SEPARATOR] + encode_utf8("offline"@)
            + seq![PARAM_SEPARATOR] + encode_utf8("prompt"@) + seq![VALUE_SEPARATOR]
            + encode_utf8("consent"@) + seq![PARAM_SEPARATOR] + encode_utf8("code_challenge"@)
            + seq![VALUE_SEPARATOR],
        encode_utf8("&code_challenge_method=S256"@) == seq![PARAM_SEPARATOR] + encode_utf8(
            "code_challenge_method"@,
        ) + seq![VALUE_SEPARATOR] + encode_utf8("S256"@),
{
    reveal_strlit("?client_id=");
    reveal_strlit("&redirect_uri=");
    reveal_strlit("&response_type=code&scope=");
    reveal_strlit("&access_type=offline&prompt=consent&code_challenge=");
    reveal_strlit("&code_challenge_method=S256");
    lemma_ascii_text_bytes("?client_id="@);
    lemma_ascii_text_bytes("&redirect_uri="@);
    lemma_ascii_text_bytes("&response_type=code&scope="@);
    lemma_ascii_text_bytes("&access_type=offline&prompt=consent&code_challenge="@);
    lemma_ascii_text_bytes("&code_challenge_method=S256"@);
    reveal_strlit("client_id");
    reveal_strlit("redirect_uri");
    reveal_strlit("response_type");
    reveal_strlit("scope");
    reveal_strlit("access_type");
    reveal_strlit("prompt");
    reveal_strlit("code_challenge");
    reveal_strlit("code_challenge_method");
    reveal_strlit("code");
    reveal_strlit("offline");
    reveal_strlit("consent");
    reveal_strlit("S256");
    lemma_fixed_words();
    assert(ascii_bytes("?client_id="@) =~= seq![QUERY_MARK] + ascii_bytes("client_id"@)
        + seq![VALUE_SEPARATOR]);
    assert(ascii_bytes("&redirect_uri="@) =~= seq![PARAM_SEPARATOR] + ascii_bytes(
        "redirect_uri"@,
    ) + seq![VALUE_SEPARATOR]);
    assert(ascii_bytes("&response_type=code&scope="@) =~= seq![PARAM_SEPARATOR] + ascii_bytes(
        "response_type"@,
    ) + seq![VALUE_SEPARATOR] + ascii_bytes("code"@) + seq![PARAM_SEPARATOR] + ascii_bytes(
        "scope"@,
    ) + seq![VALUE_SEPARATOR]);
    assert(ascii_bytes("&access_type=offline&prompt=consent&code_challenge="@) =~= seq![
        PARAM_SEPARATOR,
    ] + ascii_bytes("access_type"@) + seq![VALUE_SEPARATOR] + ascii_bytes("offline"@)
        + seq![PARAM_SEPARATOR] + ascii_bytes("prompt"@) + seq![VALUE_SEPARATOR] + ascii_bytes(
        "consent"@,
    ) + seq![PARAM_SEPARATOR] + ascii_bytes("code_challenge"@) + seq![VALUE_SEPARATOR]);
    assert(ascii_bytes("&code_challenge_method=S256"@) =~= seq![PARAM_SEPARATOR] + ascii_bytes(
        "code_challenge_method"@,
    ) + seq![VALUE_SEPARATOR] + ascii_bytes("S256"@));
}

/// The bytes of ten texts in a row are the bytes of each, in a row.
pub(crate) proof fn lemma_bytes_of_ten(t: Seq<Seq<char>>)
    requires
        t.len() == 10,
    ensures
        encode_utf8(t[0] + t[1] + t[2] + t[3] + t[4] + t[5] + t[6] + t[7] + t[8] + t[9])
            == encode_utf8(t[0]) + encode_utf8(t[1]) + encode_utf8(t[2]) + encode_utf8(t[3])
            + encode_utf8(t[4]) + encode_utf8(t[5]) + encode_utf8(t[6]) + encode_utf8(t[7])
            + encode_utf8(t[8]) + encode_utf8(t[9]),
{
    let u1 = t[0] + t[1];
    let u2 = u1 + t[2];
    let u3 = u2 + t[3];
    let u4 = u3 + t[4];
    let u5 = u4 + t[5];
    let u6 = u5 + t[6];
    let u7 = u6 + t[7];
    let u8 = u7 + t[8];
    lemma_bytes_of_concat(t[0], t[1]);
    lemma_bytes_of_concat(u1, t[2]);
    lemma_bytes_of_concat(u2, t[3]);
    lemma_bytes_of_concat(u3, t[4]);
    lemma_bytes_of_concat(u4, t[5]);
    lemma_bytes_of_concat(u5, t[6]);
    lemma_bytes_of_concat(u6, t[7]);
    lemma_bytes_of_concat(u7, t[8]);
    lemma_bytes_of_concat(u8, t[9]);
}

/// The query string of eight parameters, written out.
pub(crate) proof fn lemma_join_of_eight(params: Seq<(Seq<u8>, Seq<u8>)>)
    requires
        params.len() == 8,
    ensures
        join_params(params) == param_bytes(params[0]) + seq![PARAM_SEPARATOR] + (param_bytes(
            params[1],
        ) + seq![PARAM_SEPARATOR] + (param_bytes(params[2]) + seq![PARAM_SEPARATOR] + (param_bytes(
            params[3],
        ) + seq![PARAM_SEPARATOR] + (param_bytes(params[4]) + seq![PARAM_SEPARATOR] + (param_bytes(
            params[5],
        ) + seq![PARAM_SEPARATOR] + (param_bytes(params[6]) + seq![PARAM_SEPARATOR] + param_bytes(
            params[7],
        ))))))),
{
    let t1 = params.drop_first();
    let t2 = t1.drop_first();
    let t3 = t2.drop_first();
    let t4 = t3.drop_first();
    let t5 = t4.drop_first();
    let t6 = t5.drop_first();
    let t7 = t6.drop_first();
    assert(join_params(t7) == param_bytes(t7[0]));
    assert(join_params(t6) == param_bytes(t6[0]) + seq![PARAM_SEPARATOR] + join_params(t7));
    assert(join_params(t5) == param_bytes(t5[0]) + seq![PARAM_SEPARATOR] + join_params(t6));
    assert(join_params(t4) == param_bytes(t4[0]) + seq![PARAM_SEPARATOR] + join_params(t5));
    assert(join_params(t3) == param_bytes(t3[0]) + seq![PARAM_SEPARATOR] + join_params(t4));
    assert(join_params(t2) == param_bytes(t2[0]) + seq![PARAM_SEPARATOR] + join_params(t3));
    assert(join_params(t1) == param_bytes(t1[0]) + seq![PARAM_SEPARATOR] + join_params(t2));
}

/// A parameter in front of a query string, taken apart.
pub(crate) proof fn lemma_shift_param(f: Seq<u8>, n: Seq<u8>, v: Seq<u8>, j: Seq<u8>)
    ensures
        f + seq![PARAM_SEPARATOR] + (param_bytes((n, v)) + seq![PARAM_SEPARATOR] + j) == (f
            + seq![PARAM_SEPARATOR] + n + seq![VALUE_SEPARATOR] + v) + seq![PARAM_SEPARATOR] + j,
        f + seq![PARAM_SEPARATOR] + param_bytes((n, v)) == f + seq![PARAM_SEPARATOR] + n
            + seq![VALUE_SEPARATOR] + v,
        f + (param_bytes((n, v)) + seq![PARAM_SEPARATOR] + j) == (f + n + seq![VALUE_SEPARATOR]
            + v) + seq![PARAM_SEPARATOR] + j,
{
    let amp = seq![PARAM_SEPARATOR];
    let eq = seq![VALUE_SEPARATOR];
    assert(f + amp + (param_bytes((n, v)) + amp + j) =~= (f + amp + n + eq + v) + amp + j);
    assert(f + amp + param_bytes((n, v)) =~= f + amp + n + eq + v);
    assert(f + (param_bytes((n, v)) + amp + j) =~= (f + n + eq + v) + amp + j);
}

/// A fixed piece that opens one parameter, and the value after it.
pub(crate) proof fn lemma_piece_of_one(f: Seq<u8>, d: Seq<u8>, n: Seq<u8>, v: Seq<u8>)
    ensures
        f + (d + n + seq![VALUE_SEPARATOR]) + v == f + d + n + seq![VALUE_SEPARATOR] + v,
        f + (d + n + seq![VALUE_SEPARATOR] + v) == f + d + n + seq![VALUE_SEPARATOR] + v,
{
    let eq = seq![VALUE_SEPARATOR];
    assert(f + (d + n + eq) + v =~= f + d + n + eq + v);
    assert(f + (d + n + eq + v) =~= f + d + n + eq + v);
}

/// A fixed piece that holds one whole parameter and opens the next.
pub(crate) proof fn lemma_piece_of_two(f: Seq<u8>, n: Seq<u8>, v: Seq<u8>, m: Seq<u8>)
    ensures
        f + (seq![PARAM_SEPARATOR] + n + seq![VALUE_SEPARATOR] + v + seq![PARAM_SEPARATOR] + m
            + seq![VALUE_SEPARATOR]) == (f + seq![PARAM_SEPARATOR] + n + seq![VALUE_SEPARATOR] + v)
            + seq![PARAM_SEPARATOR] + m + seq![VALUE_SEPARATOR],
{
    let amp = seq![PARAM_SEPARATOR];
    let eq = seq![VALUE_SEPARATOR];
    assert(f + (amp + n + eq + v + amp + m + eq) =~= (f + amp + n + eq + v) + amp + m + eq);
}

/// A fixed piece that holds two whole parameters and opens the next.
pub(crate) proof fn lemma_piece_of_three(
    f: Seq<u8>,
    n: Seq<u8>,
    v: Seq<u8>,
    m: Seq<u8>,
    w: Seq<u8>,
    k: Seq<u8>,
)
    ensures
        f + (seq![PARAM_SEPARATOR] + n + seq![VALUE_SEPARATOR] + v + seq![PARAM_SEPARATOR] + m
            + seq![VALUE_SEPARATOR] + w + seq![PARAM_SEPARATOR] + k + seq![VALUE_SEPARATOR]) == ((f
            + seq![PARAM_SEPARATOR] + n + seq![VALUE_SEPARATOR] + v) + seq![PARAM_SEPARATOR] + m
            + seq![VALUE_SEPARATOR] + w) + seq![PARAM_SEPARATOR] + k + seq![VALUE_SEPARATOR],
{
    let amp = seq![PARAM_SEPARATOR];
    let eq = seq![VALUE_SEPARATOR];
    assert(f + (amp + n + eq + v + amp + m + eq + w + amp + k + eq) =~= ((f + amp + n + eq + v)
        + amp + m + eq + w) + amp + k + eq);
}

/// The flat text of a URL, regrouped into a path, a `?` and eight parameters
/// parted by `&`. `n` holds the names and `v` the values.
pub(crate) proof fn lemma_regroup(path: Seq<u8>, n: Seq<Seq<u8>>, v: Seq<Seq<u8>>)
    requires
        n.len() == 8,
        v.len() == 8,
    ensures
        path + (seq![QUERY_MARK] + n[0] + seq![VALUE_SEPARATOR]) + v[0] + (seq![PARAM_SEPARATOR]
            + n[1] + seq![VALUE_SEPARATOR]) + v[1] + (seq![PARAM_SEPARATOR] + n[2]
            + seq![VALUE_SEPARATOR] + v[2] + seq![PARAM_SEPARATOR] + n[3] + seq![VALUE_SEPARATOR])
            + v[3] + (seq![PARAM_SEPARATOR] + n[4] + seq![VALUE_SEPARATOR] + v[4]
            + seq![PARAM_SEPARATOR] + n[5] + seq![VALUE_SEPARATOR] + v[5] + seq![PARAM_SEPARATOR]
            + n[6] + seq![VALUE_SEPARATOR]) + v[6] + (seq![PARAM_SEPARATOR] + n[7]
            + seq![VALUE_SEPARATOR] + v[7]) == path + seq![QUERY_MARK] + (param_bytes((n[0], v[0]))
            + seq![PARAM_SEPARATOR] + (param_bytes((n[1], v[1])) + seq![PARAM_SEPARATOR]
            + (param_bytes((n[2], v[2])) + seq![PARAM_SEPARATOR] + (param_bytes((n[3], v[3]))
            + seq![PARAM_SEPARATOR] + (param_bytes((n[4], v[4])) + seq![PARAM_SEPARATOR]
            + (param_bytes((n[5], v[5])) + seq![PARAM_SEPARATOR] + (param_bytes((n[6], v[6]))
            + seq![PARAM_SEPARATOR] + param_bytes((n[7], v[7]))))))))),
{
    let amp = seq![PARAM_SEPARATOR];
    let eq = seq![VALUE_SEPARATOR];
    let j7 = param_bytes((n[7], v[7]));
    let j6 = param_bytes((n[6], v[6])) + amp + j7;
    let j5 = param_bytes((n[5], v[5])) + amp + j6;
    let j4 = param_bytes((n[4], v[4])) + amp + j5;
    let j3 = param_bytes((n[3], v[3])) + amp + j4;
    let j2 = param_bytes((n[2], v[2])) + amp + j3;
    let j1 = param_bytes((n[1], v[1])) + amp + j2;
    let head = path + seq![QUERY_MARK];
    let f0 = head + n[0] + eq + v[0];
    let f1 = f0 + amp + n[1] + eq + v[1];
    let f2 = f1 + amp + n[2] + eq + v[2];
    let f3 = f2 + amp + n[3] + eq + v[3];
    let f4 = f3 + amp + n[4] + eq + v[4];
    let f5 = f4 + amp + n[5] + eq + v[5];
    let f6 = f5 + amp + n[6] + eq + v[6];
    lemma_shift_param(head, n[0], v[0], j1);
    lemma_shift_param(f0, n[1], v[1], j2);
    lemma_shift_param(f1, n[2], v[2], j3);
    lemma_shift_param(f2, n[3], v[3], j4);
    lemma_shift_param(f3, n[4], v[4], j5);
    lemma_shift_param(f4, n[5], v[5], j6);
    lemma_shift_param(f5, n[6], v[6], j7);
    lemma_shift_param(f6, n[7], v[7], j7);
    lemma_piece_of_one(path, seq![QUERY_MARK], n[0], v[0]);
    lemma_piece_of_one(f0, amp, n[1], v[1]);
    lemma_piece_of_two(f1, n[2], v[2], n[3]);
    lemma_piece_of_three(f3, n[4], v[4], n[5], v[5], n[6]);
    lemma_piece_of_one(f6, amp, n[7], v[7]);
}

} // verus!
