//! The query string of a request target and the parameters in it.

use vstd::prelude::*;
use vstd::utf8::*;
use vstd::string::*;
use crate::split::{
    first_index,
    lacks,
    lemma_first_index,
    lemma_lacks_concat,
    lemma_no_split,
    lemma_split_joined,
    lemma_split_once_shorter,
    split_once,
    split_once_at,
};

verus! {

/// `?`, which opens the query string.
pub const QUERY_MARK: u8 = 0x3f;

/// `&`, which parts the parameters.
pub const PARAM_SEPARATOR: u8 = 0x26;

/// `=`, which parts a parameter's name from its value.
pub const VALUE_SEPARATOR: u8 = 0x3d;

/// The query string of a request target: what stands between its first `?` and
/// the next one, or the end. A target without `?` has none.
pub open spec fn query_of(target: Seq<u8>) -> Option<Seq<u8>> {
    match split_once(target, QUERY_MARK) {
        None => None,
        Some(parts) => match split_once(parts.1, QUERY_MARK) {
            Some(inner) => Some(inner.0),
            None => Some(parts.1),
        },
    }
}

/// The first parameter of a query string: what stands before its first `&`.
pub open spec fn first_param(query: Seq<u8>) -> Seq<u8> {
    query.take(first_index(query, PARAM_SEPARATOR))
}

/// The raw value of the first parameter called `name`. A parameter is parted
/// at its first `=`; one without `=` has no name and no value.
pub open spec fn param_value(query: Seq<u8>, name: Seq<u8>) -> Option<Seq<u8>>
    decreases query.len(),
{
    match split_once(first_param(query), VALUE_SEPARATOR) {
        Some(pair) if pair.0 == name => Some(pair.1),
        _ => match split_once(query, PARAM_SEPARATOR) {
            Some(parts) => {
                proof {
                    lemma_split_once_shorter(query, PARAM_SEPARATOR);
                }
                param_value(parts.1, name)
            },
            None => None,
        },
    }
}

/// Whether two byte strings are the same.
pub fn bytes_equal(a: &[u8], b: &[u8]) -> (r: bool)
    ensures
        r == (a@ == b@),
{
    if a.len() != b.len() {
        return false;
    }
    let mut i: usize = 0;
    while i < a.len()
        invariant
            a@.len() == b@.len(),
            i <= a@.len(),
            forall|j: int| 0 <= j < i ==> a@[j] == b@[j],
        decreases a@.len() - i,
    {
        if a[i] != b[i] {
            return false;
        }
        i += 1;
    }
    assert(a@ =~= b@);
    true
}

/// The query string of a request target.
pub fn request_query<'a>(target: &'a str) -> (r: Option<&'a str>)
    ensures
        r is Some <==> query_of(target.spec_bytes()) is Some,
        r matches Some(q) ==> query_of(target.spec_bytes()) == Some(q.spec_bytes()),
{
    match split_once_at(target, QUERY_MARK) {
        None => None,
        Some((_, rest)) => match split_once_at(rest, QUERY_MARK) {
            Some((query, _)) => Some(query),
            None => Some(rest),
        },
    }
}

/// The raw value of the first parameter of `query` called `name`.
pub fn find_param<'a>(query: &'a str, name: &str) -> (r: Option<&'a str>)
    ensures
        r is Some <==> param_value(query.spec_bytes(), name.spec_bytes()) is Some,
        r matches Some(v) ==> param_value(query.spec_bytes(), name.spec_bytes()) == Some(
            v.spec_bytes(),
        ),
{
    let mut remaining = query;
    loop
        invariant
            param_value(query.spec_bytes(), name.spec_bytes()) == param_value(
                remaining.spec_bytes(),
                name.spec_bytes(),
            ),
        decreases remaining.spec_bytes().len(),
    {
        let ghost whole = remaining.spec_bytes();
        proof {
            lemma_first_index(whole, PARAM_SEPARATOR);
            lemma_split_once_shorter(whole, PARAM_SEPARATOR);
        }
        let (param, more) = match split_once_at(remaining, PARAM_SEPARATOR) {
            Some((head, tail)) => (head, Some(tail)),
            None => (remaining, None),
        };
        assert(param.spec_bytes() =~= first_param(whole));
        match split_once_at(param, VALUE_SEPARATOR) {
            Some((key, value)) => {
                if bytes_equal(key.as_bytes(), name.as_bytes()) {
                    return Some(value);
                }
            },
            None => {},
        }
        match more {
            Some(tail) => {
                remaining = tail;
            },
            None => {
                return None;
            },
        }
    }
}

/// A parameter as it stands in a query string: the name, `=`, the value.
pub open spec fn param_bytes(param: (Seq<u8>, Seq<u8>)) -> Seq<u8> {
    param.0 + seq![VALUE_SEPARATOR] + param.1
}

/// The query string of a list of parameters: the parameters, parted by `&`.
pub open spec fn join_params(params: Seq<(Seq<u8>, Seq<u8>)>) -> Seq<u8>
    decreases params.len(),
{
    if params.len() == 0 {
        Seq::empty()
    } else if params.len() == 1 {
        param_bytes(params[0])
    } else {
        param_bytes(params[0]) + seq![PARAM_SEPARATOR] + join_params(params.drop_first())
    }
}

/// The value of the first parameter of a list that has the given name.
pub open spec fn lookup(params: Seq<(Seq<u8>, Seq<u8>)>, name: Seq<u8>) -> Option<Seq<u8>>
    decreases params.len(),
{
    if params.len() == 0 {
        None
    } else if params[0].0 == name {
        Some(params[0].1)
    } else {
        lookup(params.drop_first(), name)
    }
}

/// Whether a list of parameters can be read back from its query string: no
/// name holds `=` or `&`, and no value holds `&`.
pub open spec fn separable(params: Seq<(Seq<u8>, Seq<u8>)>) -> bool {
    forall|i: int|
        0 <= i < params.len() ==> {
            &&& lacks((#[trigger] params[i]).0, VALUE_SEPARATOR)
            &&& lacks(params[i].0, PARAM_SEPARATOR)
            &&& lacks(params[i].1, PARAM_SEPARATOR)
        }
}

/// Whether `byte` occurs in no name and no value of a list of parameters.
pub open spec fn params_lack(params: Seq<(Seq<u8>, Seq<u8>)>, byte: u8) -> bool {
    forall|i: int|
        0 <= i < params.len() ==> lacks((#[trigger] params[i]).0, byte) && lacks(params[i].1, byte)
}

/// Reading a parameter from the query string of a separable list gives what
/// looking it up in the list gives.
pub proof fn lemma_param_value_of_join(params: Seq<(Seq<u8>, Seq<u8>)>, name: Seq<u8>)
    requires
        separable(params),
    ensures
        param_value(join_params(params), name) == lookup(params, name),
    decreases params.len(),
{
    let query = join_params(params);
    if params.len() == 0 {
        lemma_no_split(query, PARAM_SEPARATOR);
        lemma_no_split(first_param(query), VALUE_SEPARATOR);
    } else {
        let first = params[0];
        let text = param_bytes(first);
        assert(lacks(text, PARAM_SEPARATOR)) by {
            lemma_lacks_concat(first.0, seq![VALUE_SEPARATOR], PARAM_SEPARATOR);
            lemma_lacks_concat(first.0 + seq![VALUE_SEPARATOR], first.1, PARAM_SEPARATOR);
        }
        lemma_split_joined(first.0, VALUE_SEPARATOR, first.1);
        if params.len() == 1 {
            lemma_no_split(query, PARAM_SEPARATOR);
            assert(first_param(query) =~= text);
            assert(lookup(params.drop_first(), name) is None);
        } else {
            let rest = params.drop_first();
            assert(separable(rest)) by {
                assert forall|i: int| 0 <= i < rest.len() implies {
                    &&& lacks((#[trigger] rest[i]).0, VALUE_SEPARATOR)
                    &&& lacks(rest[i].0, PARAM_SEPARATOR)
                    &&& lacks(rest[i].1, PARAM_SEPARATOR)
                } by {
                    assert(rest[i] == params[i + 1]);
                }
            }
            lemma_param_value_of_join(rest, name);
            lemma_split_joined(text, PARAM_SEPARATOR, join_params(rest));
            assert(first_param(query) =~= text);
        }
    }
}

/// The query string of a list of parameters lacks a byte that no name and no
/// value holds and that is neither `=` nor `&`.
pub proof fn lemma_join_lacks(params: Seq<(Seq<u8>, Seq<u8>)>, byte: u8)
    requires
        params_lack(params, byte),
        byte != VALUE_SEPARATOR,
        byte != PARAM_SEPARATOR,
    ensures
        lacks(join_params(params), byte),
    decreases params.len(),
{
    if params.len() > 0 {
        let first = params[0];
        lemma_lacks_concat(first.0, seq![VALUE_SEPARATOR], byte);
        lemma_lacks_concat(first.0 + seq![VALUE_SEPARATOR], first.1, byte);
        if params.len() > 1 {
            let rest = params.drop_first();
            assert(params_lack(rest, byte)) by {
                assert forall|i: int| 0 <= i < rest.len() implies lacks(
                    (#[trigger] rest[i]).0,
                    byte,
                ) && lacks(rest[i].1, byte) by {
                    assert(rest[i] == params[i + 1]);
                }
            }
            lemma_join_lacks(rest, byte);
            lemma_lacks_concat(param_bytes(first), seq![PARAM_SEPARATOR], byte);
            lemma_lacks_concat(
                param_bytes(first) + seq![PARAM_SEPARATOR],
                join_params(rest),
                byte,
            );
        }
    }
}

/// A path without `?`, a `?` and a query string without `?` make a request
/// target whose query string is that one.
pub proof fn lemma_query_of_target(path: Seq<u8>, query: Seq<u8>)
    requires
        lacks(path, QUERY_MARK),
        lacks(query, QUERY_MARK),
    ensures
        query_of(path + seq![QUERY_MARK] + query) == Some(query),
{
    lemma_split_joined(path, QUERY_MARK, query);
    lemma_no_split(query, QUERY_MARK);
}

/// Looking up the name of a parameter that no earlier parameter shares gives
/// that parameter's value.
pub proof fn lemma_lookup_at(params: Seq<(Seq<u8>, Seq<u8>)>, k: int)
    requires
        0 <= k < params.len(),
        forall|j: int| 0 <= j < k ==> (#[trigger] params[j]).0 != params[k].0,
    ensures
        lookup(params, params[k].0) == Some(params[k].1),
    decreases params.len(),
{
    if k > 0 {
        let rest = params.drop_first();
        assert(params[0].0 != params[k].0);
        assert(rest[k - 1] == params[k]);
        assert forall|j: int| 0 <= j < k - 1 implies (#[trigger] rest[j]).0 != rest[k - 1].0 by {
            assert(rest[j] == params[j + 1]);
        }
        lemma_lookup_at(rest, k - 1);
    }
}

} // verus!
