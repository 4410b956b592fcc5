use axum::http::{HeaderMap, HeaderName};
use homebridge_exporter::auth::{authorizes_value, check_bearer_token};
use reqwest::header::HeaderValue;

#[test]
fn check_bearer_token_find_the_right_token() {
    let keys = vec![String::from("foo"), String::from("bar")];
    let mut headers = HeaderMap::new();
    headers.insert(
        HeaderName::from_static("authorization"),
        HeaderValue::from_str("Bearer bar").unwrap(),
    );

    assert!(check_bearer_token(&headers, &keys));
}

#[test]
fn check_bearer_token_fails_with_wrong_token() {
    let keys = vec![String::from("foo"), String::from("bar")];
    let mut headers = HeaderMap::new();
    headers.insert(
        HeaderName::from_static("authorization"),
        HeaderValue::from_str("Bearer zoo").unwrap(),
    );

    assert!(!check_bearer_token(&headers, &keys));
}

#[test]
fn check_bearer_token_fails_with_empty_keys() {
    let keys = vec![];
    let mut headers = HeaderMap::new();
    headers.insert(
        HeaderName::from_static("authorization"),
        HeaderValue::from_str("Bearer zoo").unwrap(),
    );

    assert!(!check_bearer_token(&headers, &keys));
}

#[test]
fn missing_authorization_header_is_refused() {
    let keys = vec![String::from("foo")];
    let mut headers = HeaderMap::new();
    headers.insert(
        HeaderName::from_static("content-type"),
        HeaderValue::from_str("Bearer foo").unwrap(),
    );
    assert!(!check_bearer_token(&headers, &keys));
}

#[test]
fn header_name_is_found_in_any_case() {
    let keys = vec![String::from("foo")];
    let mut headers = HeaderMap::new();
    headers.insert(
        HeaderName::from_bytes(b"Authorization").unwrap(),
        HeaderValue::from_str("Bearer foo").unwrap(),
    );
    assert!(check_bearer_token(&headers, &keys));
}

#[test]
fn first_authorization_value_decides() {
    let keys = vec![String::from("foo")];
    let mut headers = HeaderMap::new();
    headers.append(
        HeaderName::from_static("authorization"),
        HeaderValue::from_str("Bearer zoo").unwrap(),
    );
    headers.append(
        HeaderName::from_static("authorization"),
        HeaderValue::from_str("Bearer foo").unwrap(),
    );
    assert!(!check_bearer_token(&headers, &keys));
}

#[test]
fn scheme_without_key_is_refused() {
    let keys = vec![String::from(""), String::from("Bearer")];
    assert!(!authorizes_value(b"Bearer", &keys));
    assert!(!authorizes_value(b"bearer foo", &[String::from("foo")]));
    assert!(!authorizes_value(b"Token foo", &[String::from("foo")]));
}

#[test]
fn key_ends_at_the_next_space() {
    let keys = vec![String::from("foo")];
    assert!(authorizes_value(b"Bearer foo extra", &keys));
    assert!(!authorizes_value(b"Bearer foox", &keys));
    assert!(!authorizes_value(b"Bearer  foo", &keys));
    assert!(authorizes_value(b"Bearer  foo", &[String::from("")]));
}

#[test]
fn non_text_value_is_refused() {
    let keys = vec![String::from("f\u{e9}")];
    assert!(!authorizes_value("Bearer f\u{e9}".as_bytes(), &keys));
    assert!(!authorizes_value(b"Bearer foo\x7f", &[String::from("foo\x7f")]));
    assert!(authorizes_value(b"Bearer f\to", &[String::from("f\to")]));
}
