use pkce_loopback::auth_url::{build_authorization_url, AuthorizationRequest};
use pkce_loopback::callback::extract_code;
use pkce_loopback::query::{find_param, request_query};

const ENDPOINT: &str = "https://accounts.google.com/o/oauth2/v2/auth";

fn request(client_id: &str, redirect_uri: &str, scopes: &str, challenge: &str) -> AuthorizationRequest {
    AuthorizationRequest {
        client_id: client_id.to_string(),
        redirect_uri: redirect_uri.to_string(),
        scopes: scopes.to_string(),
        challenge: challenge.to_string(),
    }
}

#[test]
fn url_of_a_plain_request() {
    let url = build_authorization_url(
        ENDPOINT,
        &request(
            "abc",
            "http://localhost:3737",
            "email profile",
            "E9Melhoa2OwvFrEMTJguCHaoeK1t8URWbuGJSstw-cM",
        ),
    );
    assert_eq!(
        url,
        "https://accounts.google.com/o/oauth2/v2/auth?client_id=abc\
         &redirect_uri=http%3A%2F%2Flocalhost%3A3737&response_type=code\
         &scope=email%20profile&access_type=offline&prompt=consent\
         &code_challenge=E9Melhoa2OwvFrEMTJguCHaoeK1t8URWbuGJSstw-cM\
         &code_challenge_method=S256"
    );
}

#[test]
fn client_id_is_inserted_as_it_is() {
    let url = build_authorization_url("e", &request("a b/c", "", "", ""));
    assert_eq!(
        url,
        "e?client_id=a b/c&redirect_uri=&response_type=code&scope=\
         &access_type=offline&prompt=consent&code_challenge=&code_challenge_method=S256"
    );
}

#[test]
fn unreserved_characters_stay() {
    let url = build_authorization_url("e", &request("c", "AZaz09-._~", "", ""));
    assert!(url.contains("&redirect_uri=AZaz09-._~&"));
}

#[test]
fn reserved_characters_are_escaped_in_upper_case() {
    let url = build_authorization_url("e", &request("c", "", "a&b=c?d#e+f%g/h:i", ""));
    assert!(url.contains("&scope=a%26b%3Dc%3Fd%23e%2Bf%25g%2Fh%3Ai&"));
}

#[test]
fn text_beyond_ascii_is_escaped_byte_by_byte() {
    let url = build_authorization_url("e", &request("c", "", "", "\u{20ac}\u{e9}"));
    assert!(url.contains("&code_challenge=%E2%82%AC%C3%A9&"));
}

#[test]
fn control_and_high_bytes_are_escaped() {
    let url = build_authorization_url("e", &request("c", "\u{0}\n\u{7f}", "", ""));
    assert!(url.contains("&redirect_uri=%00%0A%7F&"));
}

#[test]
fn values_decode_to_what_was_given() {
    let redirect_uri = "http://localhost:3737/cb?x=1&y=2";
    let scopes = "email profile https://www.googleapis.com/auth/drive.file";
    let challenge = "a-b_c~d \u{20ac}";
    let url = build_authorization_url(ENDPOINT, &request("abc", redirect_uri, scopes, challenge));
    let query = request_query(&url).unwrap();
    assert_eq!(find_param(query, "client_id"), Some("abc"));
    assert_eq!(find_param(query, "response_type"), Some("code"));
    assert_eq!(find_param(query, "access_type"), Some("offline"));
    assert_eq!(find_param(query, "prompt"), Some("consent"));
    assert_eq!(find_param(query, "code_challenge_method"), Some("S256"));
    for (name, given) in [
        ("redirect_uri", redirect_uri),
        ("scope", scopes),
        ("code_challenge", challenge),
    ] {
        let raw = find_param(query, name).unwrap();
        assert!(raw
            .bytes()
            .all(|b| b.is_ascii_alphanumeric() || b"-._~%".contains(&b)));
        let as_code = format!("/?code={}", raw);
        assert_eq!(extract_code(&as_code), Some(given.to_string()));
    }
}
