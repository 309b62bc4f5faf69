//! The URL of the provider's authorization endpoint for one request.

use vstd::prelude::*;
use vstd::string::*;
use vstd::utf8::*;
use crate::percent::{
    decoded_component,
    encode_component,
    encoded_component,
    lemma_component_round_trip,
    lemma_encoded_component_bytes,
    lemma_encoding_is_plain,
    percent_encode,
};
use crate::query::{
    join_params,
    lemma_join_lacks,
    lemma_param_value_of_join,
    lemma_lookup_at,
    lemma_query_of_target,
    param_value,
    query_of,
    PARAM_SEPARATOR,
    QUERY_MARK,
};
use crate::split::lacks;
use crate::url_layout::{
    lemma_bytes_of_ten,
    lemma_fixed_pieces,
    lemma_fixed_words,
    lemma_join_of_eight,
    lemma_plain_lacks_delimiters,
    lemma_regroup,
};

verus! {

/// What an authorization URL is built from.
#[derive(Debug, Clone, PartialEq, Eq)]
pub struct AuthorizationRequest {
    /// The client's identifier, inserted as it is.
    pub client_id: String,
    /// Where the provider redirects to.
    pub redirect_uri: String,
    /// The scopes asked for, parted by spaces.
    pub scopes: String,
    /// The PKCE challenge.
    pub challenge: String,
}

/// An authorization request as plain texts.
pub struct AuthorizationRequestView {
    pub client_id: Seq<char>,
    pub redirect_uri: Seq<char>,
    pub scopes: Seq<char>,
    pub challenge: Seq<char>,
}

impl View for AuthorizationRequest {
    type V = AuthorizationRequestView;

    open spec fn view(&self) -> AuthorizationRequestView {
        AuthorizationRequestView {
            client_id: self.client_id@,
            redirect_uri: self.redirect_uri@,
            scopes: self.scopes@,
            challenge: self.challenge@,
        }
    }
}

/// The authorization URL: the endpoint and a query string of eight parameters,
/// in which the redirect URI, the scopes and the challenge are percent-encoded.
pub open spec fn authorization_url(endpoint: Seq<char>, request: AuthorizationRequestView) -> Seq<
    char,
> {
    endpoint + "?client_id="@ + request.client_id + "&redirect_uri="@ + encoded_component(
        request.redirect_uri,
    ) + "&response_type=code&scope="@ + encoded_component(request.scopes)
        + "&access_type=offline&prompt=consent&code_challenge="@ + encoded_component(
        request.challenge,
    ) + "&code_challenge_method=S256"@
}

/// Builds the authorization URL of a request at the given endpoint.
pub fn build_authorization_url(endpoint: &str, request: &AuthorizationRequest) -> (url: String)
    ensures
        url@ == authorization_url(endpoint@, request@),
{
    let redirect_uri = encode_component(request.redirect_uri.as_str());
    let scopes = encode_component(request.scopes.as_str());
    let challenge = encode_component(request.challenge.as_str());
    let mut url = endpoint.to_owned();
    url.append("?client_id=");
    url.append(request.client_id.as_str());
    url.append("&redirect_uri=");
    url.append(redirect_uri.as_str());
    url.append("&response_type=code&scope=");
    url.append(scopes.as_str());
    url.append("&access_type=offline&prompt=consent&code_challenge=");
    url.append(challenge.as_str());
    url.append("&code_challenge_method=S256");
    url
}

/// The parameters of the authorization URL's query string, in their order.
pub open spec fn authorization_params(request: AuthorizationRequestView) -> Seq<
    (Seq<u8>, Seq<u8>),
> {
    seq![
        (encode_utf8("client_id"@), encode_utf8(request.client_id)),
        (encode_utf8("redirect_uri"@), percent_encode(encode_utf8(request.redirect_uri))),
        (encode_utf8("response_type"@), encode_utf8("code"@)),
        (encode_utf8("scope"@), percent_encode(encode_utf8(request.scopes))),
        (encode_utf8("access_type"@), encode_utf8("offline"@)),
        (encode_utf8("prompt"@), encode_utf8("consent"@)),
        (encode_utf8("code_challenge"@), percent_encode(encode_utf8(request.challenge))),
        (encode_utf8("code_challenge_method"@), encode_utf8("S256"@)),
    ]
}

/// The raw value of the first parameter called `name` in the query string of a URL.
pub open spec fn url_param(url: Seq<u8>, name: Seq<char>) -> Option<Seq<u8>> {
    match query_of(url) {
        Some(query) => param_value(query, encode_utf8(name)),
        None => None,
    }
}

/// The decoded value of the first parameter called `name` in the query string
/// of a URL.
pub open spec fn decoded_url_param(url: Seq<u8>, name: Seq<char>) -> Option<Seq<char>> {
    match url_param(url, name) {
        Some(raw) => decoded_component(raw),
        None => None,
    }
}

/// Whether a client identifier can stand in a query string as it is: it holds
/// neither `?` nor `&`.
pub open spec fn is_sanitized(client_id: Seq<char>) -> bool {
    lacks(encode_utf8(client_id), QUERY_MARK) && lacks(encode_utf8(client_id), PARAM_SEPARATOR)
}

/// The bytes of the authorization URL are those of the endpoint, a `?` and the
/// query string of the eight parameters.
pub proof fn lemma_authorization_url_layout(endpoint: Seq<char>, request: AuthorizationRequestView)
    ensures
        encode_utf8(authorization_url(endpoint, request)) == encode_utf8(endpoint)
            + seq![QUERY_MARK] + join_params(authorization_params(request)),
{
    let texts = seq![
        endpoint,
        "?client_id="@,
        request.client_id,
        "&redirect_uri="@,
        encoded_component(request.redirect_uri),
        "&response_type=code&scope="@,
        encoded_component(request.scopes),
        "&access_type=offline&prompt=consent&code_challenge="@,
        encoded_component(request.challenge),
        "&code_challenge_method=S256"@,
    ];
    let params = authorization_params(request);
    let names = Seq::new(8, |i: int| params[i].0);
    let values = Seq::new(8, |i: int| params[i].1);
    lemma_bytes_of_ten(texts);
    lemma_encoded_component_bytes(request.redirect_uri);
    lemma_encoded_component_bytes(request.scopes);
    lemma_encoded_component_bytes(request.challenge);
    lemma_fixed_pieces();
    lemma_join_of_eight(params);
    lemma_regroup(encode_utf8(endpoint), names, values);
    assert(params[0] == (names[0], values[0]));
    assert(params[1] == (names[1], values[1]));
    assert(params[2] == (names[2], values[2]));
    assert(params[3] == (names[3], values[3]));
    assert(params[4] == (names[4], values[4]));
    assert(params[5] == (names[5], values[5]));
    assert(params[6] == (names[6], values[6]));
    assert(params[7] == (names[7], values[7]));
}

/// Every parameter of the authorization URL reads back from it. For an
/// endpoint without `?` and a sanitized client identifier, the query string of
/// the URL holds the client identifier as it is and the five fixed values; the
/// redirect URI, the scopes and the challenge stand in it percent-encoded, and
/// decode to what was given, whatever characters that holds.
pub proof fn lemma_authorization_url_round_trip(
    endpoint: Seq<char>,
    request: AuthorizationRequestView,
)
    requires
        lacks(encode_utf8(endpoint), QUERY_MARK),
        is_sanitized(request.client_id),
    ensures
        ({
            let url = encode_utf8(authorization_url(endpoint, request));
            &&& url_param(url, "client_id"@) == Some(encode_utf8(request.client_id))
            &&& url_param(url, "redirect_uri"@) == Some(
                percent_encode(encode_utf8(request.redirect_uri)),
            )
            &&& url_param(url, "response_type"@) == Some(encode_utf8("code"@))
            &&& url_param(url, "scope"@) == Some(percent_encode(encode_utf8(request.scopes)))
            &&& url_param(url, "access_type"@) == Some(encode_utf8("offline"@))
            &&& url_param(url, "prompt"@) == Some(encode_utf8("consent"@))
            &&& url_param(url, "code_challenge"@) == Some(
                percent_encode(encode_utf8(request.challenge)),
            )
            &&& url_param(url, "code_challenge_method"@) == Some(encode_utf8("S256"@))
            &&& decoded_url_param(url, "redirect_uri"@) == Some(request.redirect_uri)
            &&& decoded_url_param(url, "scope"@) == Some(request.scopes)
            &&& decoded_url_param(url, "code_challenge"@) == Some(request.challenge)
        }),
{
    let url = encode_utf8(authorization_url(endpoint, request));
    let params = authorization_params(request);
    let query = join_params(params);
    lemma_authorization_url_layout(endpoint, request);
    lemma_fixed_words();
    lemma_encoding_is_plain(encode_utf8(request.redirect_uri));
    lemma_encoding_is_plain(encode_utf8(request.scopes));
    lemma_encoding_is_plain(encode_utf8(request.challenge));
    lemma_plain_lacks_delimiters(percent_encode(encode_utf8(request.redirect_uri)));
    lemma_plain_lacks_delimiters(percent_encode(encode_utf8(request.scopes)));
    lemma_plain_lacks_delimiters(percent_encode(encode_utf8(request.challenge)));
    lemma_join_lacks(params, QUERY_MARK);
    lemma_query_of_target(encode_utf8(endpoint), query);
    assert(query_of(url) == Some(query));
    lemma_param_value_of_join(params, encode_utf8("client_id"@));
    lemma_param_value_of_join(params, encode_utf8("redirect_uri"@));
    lemma_param_value_of_join(params, encode_utf8("response_type"@));
    lemma_param_value_of_join(params, encode_utf8("scope"@));
    lemma_param_value_of_join(params, encode_utf8("access_type"@));
    lemma_param_value_of_join(params, encode_utf8("prompt"@));
    lemma_param_value_of_join(params, encode_utf8("code_challenge"@));
    lemma_param_value_of_join(params, encode_utf8("code_challenge_method"@));
    lemma_lookup_at(params, 0);
    lemma_lookup_at(params, 1);
    lemma_lookup_at(params, 2);
    lemma_lookup_at(params, 3);
    lemma_lookup_at(params, 4);
    lemma_lookup_at(params, 5);
    lemma_lookup_at(params, 6);
    lemma_lookup_at(params, 7);
    lemma_component_round_trip(request.redirect_uri);
    lemma_component_round_trip(request.scopes);
    lemma_component_round_trip(request.challenge);
}

} // verus!
