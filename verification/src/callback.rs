//! The loopback callback: what one redirect request captures, and the
//! write-once cell that holds it.

use vstd::prelude::*;
use vstd::utf8::*;
use vstd::string::*;
use crate::percent::{decode_component, decoded_component};
use crate::query::{
    find_param,
    join_params,
    lemma_join_lacks,
    lemma_param_value_of_join,
    lemma_query_of_target,
    lookup,
    param_value,
    params_lack,
    query_of,
    request_query,
    separable,
    QUERY_MARK,
};
use crate::split::lacks;

verus! {

/// The status of the answer to every callback request.
pub const RESPONSE_STATUS: u16 = 200;

/// The name of the parameter that carries the authorization code, `code`.
pub open spec fn code_param() -> Seq<u8> {
    encode_utf8("code"@)
}

/// The body of the answer to every callback request.
pub open spec fn response_body() -> Seq<char> {
    "Authentication successful! You can close this window and return to the app."@
}

/// The authorization code that a request target carries: the decoded value of
/// the first `code` parameter of its query string. A value that does not decode
/// to UTF-8 counts as the empty code.
pub open spec fn captured_code(target: Seq<u8>) -> Option<Seq<char>> {
    match query_of(target) {
        None => None,
        Some(query) => match param_value(query, code_param()) {
            None => None,
            Some(raw) => match decoded_component(raw) {
                Some(code) => Some(code),
                None => Some(Seq::empty()),
            },
        },
    }
}

/// What a cell holds after a request with the given target has been handled:
/// what it held before, or, where it was empty, the code of the request.
pub open spec fn cell_after(before: Option<Seq<char>>, target: Seq<u8>) -> Option<Seq<char>> {
    match before {
        Some(code) => Some(code),
        None => captured_code(target),
    }
}

/// The authorization code that a request target carries.
pub fn extract_code(target: &str) -> (r: Option<String>)
    ensures
        r is Some <==> captured_code(target.spec_bytes()) is Some,
        r matches Some(code) ==> captured_code(target.spec_bytes()) == Some(code@),
{
    match request_query(target) {
        None => None,
        Some(query) => match find_param(query, "code") {
            None => None,
            Some(raw) => match decode_component(raw) {
                Some(code) => Some(code),
                None => Some(String::new()),
            },
        },
    }
}

/// The answer sent to the browser.
#[derive(Debug, Clone, PartialEq, Eq)]
pub struct CallbackResponse {
    pub status: u16,
    pub body: String,
}

/// A single slot for the captured code, written at most once.
#[derive(Debug)]
pub struct CodeCell {
    code: Option<String>,
}

impl View for CodeCell {
    type V = Option<Seq<char>>;

    closed spec fn view(&self) -> Option<Seq<char>> {
        match self.code {
            Some(code) => Some(code@),
            None => None,
        }
    }
}

impl CodeCell {
    /// An empty cell.
    pub fn new() -> (r: CodeCell)
        ensures
            r@ is None,
    {
        CodeCell { code: None }
    }

    /// Whether a code has been stored.
    pub fn is_set(&self) -> (r: bool)
        ensures
            r == (self@ is Some),
    {
        self.code.is_some()
    }

    /// Stores a code if the cell is empty, and says whether it did. A cell that
    /// holds a code keeps it.
    pub fn store(&mut self, code: String) -> (stored: bool)
        ensures
            stored == (old(self)@ is None),
            final(self)@ == (match old(self)@ {
                Some(kept) => Some(kept),
                None => Some(code@),
            }),
    {
        if self.code.is_some() {
            false
        } else {
            self.code = Some(code);
            true
        }
    }

    /// A copy of the code, if one has been stored. The cell is left as it is.
    pub fn peek(&self) -> (r: Option<String>)
        ensures
            r is Some <==> self@ is Some,
            r matches Some(code) ==> self@ == Some(code@),
    {
        match &self.code {
            Some(code) => Some(code.clone()),
            None => None,
        }
    }
}

/// Handles the one request that the callback server accepts: stores the code
/// that the target carries, if the cell is still empty, and gives the answer,
/// which is the same whether or not a code was found.
pub fn handle_callback(cell: &mut CodeCell, target: &str) -> (response: CallbackResponse)
    ensures
        final(cell)@ == cell_after(old(cell)@, target.spec_bytes()),
        response.status == RESPONSE_STATUS,
        response.body@ == response_body(),
{
    match extract_code(target) {
        Some(code) => {
            cell.store(code);
        },
        None => {},
    }
    CallbackResponse {
        status: RESPONSE_STATUS,
        body: "Authentication successful! You can close this window and return to the app.".to_owned(),
    }
}

/// A request whose query string is made of the given parameters carries the
/// code of the first parameter called `code`, whatever stands before or after
/// it, and none where no parameter has that name.
pub proof fn lemma_first_code_is_captured(path: Seq<u8>, params: Seq<(Seq<u8>, Seq<u8>)>)
    requires
        lacks(path, QUERY_MARK),
        separable(params),
        params_lack(params, QUERY_MARK),
    ensures
        captured_code(path + seq![QUERY_MARK] + join_params(params)) == (match lookup(
            params,
            code_param(),
        ) {
            None => None,
            Some(raw) => match decoded_component(raw) {
                Some(code) => Some(code),
                None => Some(Seq::empty()),
            },
        }),
{
    lemma_join_lacks(params, QUERY_MARK);
    lemma_query_of_target(path, join_params(params));
    lemma_param_value_of_join(params, code_param());
}

/// A cell that holds a code holds the same code after any request.
pub proof fn lemma_cell_is_written_once(code: Seq<char>, target: Seq<u8>)
    ensures
        cell_after(Some(code), target) == Some(code),
{
}

} // verus!
