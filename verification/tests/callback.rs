use pkce_loopback::callback::{extract_code, handle_callback, CodeCell};
use pkce_loopback::query::{bytes_equal, find_param, request_query};

const BODY: &str = "Authentication successful! You can close this window and return to the app.";

#[test]
fn code_alone() {
    assert_eq!(extract_code("/?code=XYZ789"), Some("XYZ789".to_string()));
}

#[test]
fn code_between_other_parameters() {
    assert_eq!(
        extract_code("/callback?scope=email&code=ABC123&state=xyz"),
        Some("ABC123".to_string())
    );
}

#[test]
fn first_code_wins() {
    assert_eq!(
        extract_code("/?code=first&code=second"),
        Some("first".to_string())
    );
}

#[test]
fn no_query_no_code() {
    assert_eq!(extract_code("/"), None);
    assert_eq!(extract_code(""), None);
}

#[test]
fn no_code_parameter() {
    assert_eq!(extract_code("/?state=xyz&error=access_denied"), None);
    assert_eq!(extract_code("/?"), None);
}

#[test]
fn name_must_be_code_exactly() {
    assert_eq!(extract_code("/?Code=a"), None);
    assert_eq!(extract_code("/?codes=a"), None);
    assert_eq!(extract_code("/?xcode=a"), None);
    assert_eq!(extract_code("/? code=a"), None);
}

#[test]
fn parameter_without_equals_is_skipped() {
    assert_eq!(extract_code("/?code"), None);
    assert_eq!(extract_code("/?code&code=z"), Some("z".to_string()));
}

#[test]
fn empty_value_is_a_code() {
    assert_eq!(extract_code("/?code="), Some(String::new()));
    assert_eq!(extract_code("/?code=&state=1"), Some(String::new()));
}

#[test]
fn value_is_parted_at_the_first_equals() {
    assert_eq!(extract_code("/?code=a=b"), Some("a=b".to_string()));
}

#[test]
fn value_is_percent_decoded() {
    assert_eq!(extract_code("/?code=4%2F0Ab%20c"), Some("4/0Ab c".to_string()));
    assert_eq!(extract_code("/?code=%e2%82%ac"), Some("\u{20ac}".to_string()));
}

#[test]
fn plus_stays_a_plus() {
    assert_eq!(extract_code("/?code=a+b"), Some("a+b".to_string()));
}

#[test]
fn broken_escapes_stand_for_themselves() {
    assert_eq!(extract_code("/?code=100%"), Some("100%".to_string()));
    assert_eq!(extract_code("/?code=%4"), Some("%4".to_string()));
    assert_eq!(extract_code("/?code=%zz1"), Some("%zz1".to_string()));
    assert_eq!(extract_code("/?code=%4g"), Some("%4g".to_string()));
    assert_eq!(extract_code("/?code=%%41"), Some("%A".to_string()));
}

#[test]
fn value_that_is_not_utf8_gives_the_empty_code() {
    assert_eq!(extract_code("/?code=%ff"), Some(String::new()));
    assert_eq!(extract_code("/?code=ab%c3"), Some(String::new()));
}

#[test]
fn query_ends_at_a_second_question_mark() {
    assert_eq!(extract_code("/?state=1?code=late"), None);
    assert_eq!(extract_code("/?code=a?b"), Some("a".to_string()));
}

#[test]
fn text_beyond_ascii_around_the_code() {
    assert_eq!(
        extract_code("/p\u{e9}?n\u{e4}me=\u{20ac}&code=\u{fc}ber&x=1"),
        Some("\u{fc}ber".to_string())
    );
}

#[test]
fn query_of_a_target() {
    assert_eq!(request_query("/cb?a=1&b=2"), Some("a=1&b=2"));
    assert_eq!(request_query("/cb?a=1?b=2"), Some("a=1"));
    assert_eq!(request_query("/cb?"), Some(""));
    assert_eq!(request_query("/cb"), None);
}

#[test]
fn parameter_by_name() {
    assert_eq!(find_param("a=1&b=2&a=3", "a"), Some("1"));
    assert_eq!(find_param("a=1&b=2&a=3", "b"), Some("2"));
    assert_eq!(find_param("a=1&b=2&a=3", "c"), None);
    assert_eq!(find_param("a=1&&b=2", "b"), Some("2"));
    assert_eq!(find_param("=v", ""), Some("v"));
    assert_eq!(find_param("", "a"), None);
}

#[test]
fn byte_strings_compare() {
    assert!(bytes_equal(b"code", b"code"));
    assert!(!bytes_equal(b"code", b"cod"));
    assert!(!bytes_equal(b"code", b"core"));
    assert!(bytes_equal(b"", b""));
}

#[test]
fn cell_starts_empty() {
    let cell = CodeCell::new();
    assert!(!cell.is_set());
    assert_eq!(cell.peek(), None);
}

#[test]
fn cell_is_written_once() {
    let mut cell = CodeCell::new();
    assert!(cell.store("first".to_string()));
    assert!(cell.is_set());
    assert!(!cell.store("second".to_string()));
    assert_eq!(cell.peek(), Some("first".to_string()));
}

#[test]
fn peek_leaves_the_code() {
    let mut cell = CodeCell::new();
    cell.store("abc".to_string());
    assert_eq!(cell.peek(), Some("abc".to_string()));
    assert_eq!(cell.peek(), Some("abc".to_string()));
}

#[test]
fn callback_with_code_fills_the_cell() {
    let mut cell = CodeCell::new();
    let response = handle_callback(&mut cell, "/?state=s&code=ABC123&state=xyz");
    assert_eq!(cell.peek(), Some("ABC123".to_string()));
    assert_eq!(response.status, 200);
    assert_eq!(response.body, BODY);
}

#[test]
fn callback_without_code_leaves_the_cell_empty() {
    let mut cell = CodeCell::new();
    let response = handle_callback(&mut cell, "/?error=access_denied");
    assert!(!cell.is_set());
    assert_eq!(cell.peek(), None);
    assert_eq!(response.status, 200);
    assert_eq!(response.body, BODY);
}

#[test]
fn second_callback_does_not_replace_the_code() {
    let mut cell = CodeCell::new();
    handle_callback(&mut cell, "/?code=one");
    handle_callback(&mut cell, "/?code=two");
    assert_eq!(cell.peek(), Some("one".to_string()));
}
