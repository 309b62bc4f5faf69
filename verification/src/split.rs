//! Splitting a text at the first occurrence of an ASCII delimiter.

use vstd::prelude::*;
use vstd::utf8::*;
use vstd::string::*;

verus! {

/// The index of the first occurrence of `delimiter` in `s`, or the length of
/// `s` where it does not occur.
pub open spec fn first_index(s: Seq<u8>, delimiter: u8) -> int
    decreases s.len(),
{
    if s.len() == 0 || s[0] == delimiter {
        0
    } else {
        1 + first_index(s.drop_first(), delimiter)
    }
}

/// What stands before and after the first occurrence of `delimiter`, or nothing
/// where it does not occur.
pub open spec fn split_once(s: Seq<u8>, delimiter: u8) -> Option<(Seq<u8>, Seq<u8>)> {
    let i = first_index(s, delimiter);
    if i < s.len() {
        Some((s.take(i), s.skip(i + 1)))
    } else {
        None
    }
}

/// Whether a byte occurs nowhere in a byte string.
pub open spec fn lacks(s: Seq<u8>, b: u8) -> bool {
    forall|i: int| 0 <= i < s.len() ==> #[trigger] s[i] != b
}

/// The first index lies within the string or at its end, no earlier byte is the
/// delimiter, and the byte at it is.
pub proof fn lemma_first_index(s: Seq<u8>, delimiter: u8)
    ensures
        0 <= first_index(s, delimiter) <= s.len(),
        forall|j: int| 0 <= j < first_index(s, delimiter) ==> #[trigger] s[j] != delimiter,
        first_index(s, delimiter) < s.len() ==> s[first_index(s, delimiter)] == delimiter,
    decreases s.len(),
{
    if s.len() == 0 || s[0] == delimiter {
    } else {
        let rest = s.drop_first();
        lemma_first_index(rest, delimiter);
        assert forall|j: int| 0 <= j < first_index(s, delimiter) implies #[trigger] s[j]
            != delimiter by {
            if j > 0 {
                assert(s[j] == rest[j - 1]);
            }
        }
    }
}

/// An index that no occurrence precedes and at which the string ends or the
/// delimiter stands is the first index.
pub proof fn lemma_first_index_unique(s: Seq<u8>, delimiter: u8, i: int)
    requires
        0 <= i <= s.len(),
        forall|j: int| 0 <= j < i ==> #[trigger] s[j] != delimiter,
        i < s.len() ==> s[i] == delimiter,
    ensures
        first_index(s, delimiter) == i,
{
    lemma_first_index(s, delimiter);
    let k = first_index(s, delimiter);
    if k < i {
        assert(s[k] != delimiter);
    } else if i < k {
        assert(s[i] != delimiter);
    }
}

/// Both parts of a split are shorter than the whole.
pub proof fn lemma_split_once_shorter(s: Seq<u8>, delimiter: u8)
    ensures
        split_once(s, delimiter) matches Some(parts) ==> parts.0.len() < s.len() && parts.1.len()
            < s.len(),
{
    lemma_first_index(s, delimiter);
}

/// A byte string that lacks the delimiter is not split.
pub proof fn lemma_no_split(s: Seq<u8>, delimiter: u8)
    requires
        lacks(s, delimiter),
    ensures
        first_index(s, delimiter) == s.len(),
        split_once(s, delimiter) is None,
{
    lemma_first_index_unique(s, delimiter, s.len() as int);
}

/// Two byte strings joined by the delimiter, the first of which lacks it, are
/// split into the two.
pub proof fn lemma_split_joined(head: Seq<u8>, delimiter: u8, tail: Seq<u8>)
    requires
        lacks(head, delimiter),
    ensures
        first_index(head + seq![delimiter] + tail, delimiter) == head.len(),
        split_once(head + seq![delimiter] + tail, delimiter) == Some((head, tail)),
{
    let whole = head + seq![delimiter] + tail;
    assert forall|j: int| 0 <= j < head.len() implies #[trigger] whole[j] != delimiter by {
        assert(whole[j] == head[j]);
    }
    assert(whole[head.len() as int] == delimiter);
    lemma_first_index_unique(whole, delimiter, head.len() as int);
    assert(whole.take(head.len() as int) =~= head);
    assert(whole.skip(head.len() as int + 1) =~= tail);
}

/// Two byte strings in a row lack a byte where both lack it.
pub proof fn lemma_lacks_concat(a: Seq<u8>, b: Seq<u8>, byte: u8)
    requires
        lacks(a, byte),
        lacks(b, byte),
    ensures
        lacks(a + b, byte),
{
    assert forall|i: int| 0 <= i < (a + b).len() implies #[trigger] (a + b)[i] != byte by {
        if i < a.len() {
            assert((a + b)[i] == a[i]);
        } else {
            assert((a + b)[i] == b[i - a.len()]);
        }
    }
}

/// Splits a text at the first occurrence of an ASCII delimiter.
pub(crate) fn split_once_at<'a>(text: &'a str, delimiter: u8) -> (r: Option<(&'a str, &'a str)>)
    requires
        delimiter < 0x80,
    ensures
        r is Some <==> split_once(text.spec_bytes(), delimiter) is Some,
        r matches Some(parts) ==> split_once(text.spec_bytes(), delimiter) == Some(
            (parts.0.spec_bytes(), parts.1.spec_bytes()),
        ),
{
    let bytes = text.as_bytes();
    let mut i: usize = 0;
    while i < bytes.len()
        invariant
            delimiter < 0x80,
            bytes@ == text.spec_bytes(),
            i <= bytes@.len(),
            forall|j: int| 0 <= j < i ==> #[trigger] bytes@[j] != delimiter,
        decreases bytes@.len() - i,
    {
        if bytes[i] == delimiter {
            proof {
                lemma_first_index_unique(bytes@, delimiter, i as int);
                encode_utf8_valid_utf8(text@);
                is_char_boundary_iff_not_is_continuation_byte(bytes@, i as int);
            }
            let (head, tail) = text.split_at(i);
            proof {
                encode_utf8_valid_utf8(tail@);
                reveal_with_fuel(is_char_boundary, 2);
                assert(tail.spec_bytes()[0] == delimiter);
                assert(is_char_boundary(tail.spec_bytes(), 1));
            }
            let (_, rest) = tail.split_at(1);
            proof {
                assert(head.spec_bytes() =~= bytes@.take(i as int));
                assert(rest.spec_bytes() =~= bytes@.skip(i + 1));
            }
            return Some((head, rest));
        }
        i += 1;
    }
    proof {
        lemma_first_index_unique(bytes@, delimiter, i as int);
    }
    None
}

} // verus!
