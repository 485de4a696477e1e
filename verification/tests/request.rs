//! Tests of the framework-agnostic request and response types.

use mik::runtime::request::{parse_usize, Request, Response};

#[test]
fn request_test_request_builder() {
    let request = Request::new("POST", "/api/users")
        .with_header("Content-Type", "application/json")
        .with_header("Authorization", "Bearer token123")
        .with_body_str(r#"{"name": "Alice"}"#);

    assert_eq!(request.method, "POST");
    assert_eq!(request.path, "/api/users");
    assert_eq!(request.headers.len(), 2);
    assert_eq!(request.header("content-type"), Some("application/json"));
    assert_eq!(request.header("authorization"), Some("Bearer token123"));
    assert_eq!(request.body, br#"{"name": "Alice"}"#);
}

#[test]
fn test_request_header_case_insensitive() {
    let request = Request::new("GET", "/").with_header("Content-Type", "text/plain");

    assert_eq!(request.header("content-type"), Some("text/plain"));
    assert_eq!(request.header("Content-Type"), Some("text/plain"));
    assert_eq!(request.header("CONTENT-TYPE"), Some("text/plain"));
}

#[test]
fn test_request_accepts_gzip() {
    let request = Request::new("GET", "/").with_header("Accept-Encoding", "gzip, deflate");
    assert!(request.accepts_gzip());

    let request_no_gzip = Request::new("GET", "/").with_header("Accept-Encoding", "deflate");
    assert!(!request_no_gzip.accepts_gzip());

    let request_no_header = Request::new("GET", "/");
    assert!(!request_no_header.accepts_gzip());
}

#[test]
fn test_response_builder() {
    let response = Response::ok()
        .with_header("Content-Type", "application/json")
        .with_body_str(r#"{"success": true}"#);

    assert_eq!(response.status, 200);
    assert!(response.is_success());
    assert_eq!(response.header("content-type"), Some("application/json"));
    assert_eq!(response.body, br#"{"success": true}"#);
}

#[test]
fn test_response_status_helpers() {
    let ok = Response::ok();
    assert!(ok.is_success());
    assert!(!ok.is_redirect());
    assert!(!ok.is_client_error());
    assert!(!ok.is_server_error());

    let redirect = Response::new(301);
    assert!(!redirect.is_success());
    assert!(redirect.is_redirect());

    let not_found = Response::not_found("resource not found");
    assert!(not_found.is_client_error());
    assert_eq!(not_found.status, 404);

    let error = Response::internal_error("something went wrong");
    assert!(error.is_server_error());
    assert_eq!(error.status, 500);
}

#[test]
fn test_response_json() {
    let response = Response::ok().with_json(r#"{"key": "value"}"#);

    assert_eq!(response.header("content-type"), Some("application/json"));
    assert_eq!(response.body_str().unwrap(), r#"{"key": "value"}"#);
}

#[test]
fn test_request_default() {
    let request = Request::default();
    assert_eq!(request.method, "GET");
    assert_eq!(request.path, "/");
    assert!(request.headers.is_empty());
    assert!(request.body.is_empty());
}

#[test]
fn test_response_default() {
    let response = Response::default();
    assert_eq!(response.status, 200);
    assert!(response.headers.is_empty());
    assert!(response.body.is_empty());
}

#[test]
fn test_request_with_headers() {
    let headers = vec![
        ("Content-Type", "application/json"),
        ("Accept", "application/json"),
    ];
    let request = Request::new("POST", "/api").with_headers(headers);

    assert_eq!(request.headers.len(), 2);
    assert_eq!(request.header("content-type"), Some("application/json"));
    assert_eq!(request.header("accept"), Some("application/json"));
}

#[test]
fn test_response_body_str() {
    let response = Response::ok().with_body_str("Hello, World!");
    assert_eq!(response.body_str().unwrap(), "Hello, World!");

    let response_invalid = Response::ok().with_body(vec![0xff, 0xfe]);
    assert!(response_invalid.body_str().is_err());
}

#[test]
fn proxy_test_request_builder() {
    let req = Request::new("GET", "/api/users")
        .with_header("Accept", "application/json")
        .with_body(b"test".to_vec());

    assert_eq!(req.method, "GET");
    assert_eq!(req.path, "/api/users");
    assert_eq!(req.headers.len(), 1);
    assert_eq!(req.body, b"test");
}

#[test]
fn test_response_builders() {
    let ok = Response::ok();
    assert_eq!(ok.status, 200);

    let not_found = Response::not_found("not found");
    assert_eq!(not_found.status, 404);

    let error = Response::internal_error("oops");
    assert_eq!(error.status, 500);

    let bad_gateway = Response::bad_gateway("backend failed");
    assert_eq!(bad_gateway.status, 502);

    let unavailable = Response::service_unavailable("no backends");
    assert_eq!(unavailable.status, 503);
}

#[test]
fn error_responses_carry_json_bodies() {
    let r = Response::bad_request("bad input");
    assert_eq!(r.status, 400);
    assert_eq!(r.header("content-type"), Some("application/json"));
    assert_eq!(r.body_str().unwrap(), r#"{"error": "bad input"}"#);
    assert_eq!(Response::created().status, 201);
    assert_eq!(Response::no_content().status, 204);
}

#[test]
fn first_header_wins_and_content_length_parses() {
    let req = Request::new("POST", "/")
        .with_header("Content-Length", "42")
        .with_header("content-length", "7");
    assert_eq!(req.content_length(), Some(42));
    assert_eq!(Request::new("GET", "/").with_header("Content-Length", "x1").content_length(), None);
    assert_eq!(Request::new("GET", "/").content_length(), None);
    assert_eq!(
        Request::new("GET", "/").with_header("Content-Type", "text/html").content_type(),
        Some("text/html")
    );
}

#[test]
fn usize_parsing_matches_std() {
    for s in ["0", "42", "+7", "", "+", "-1", "1a", "18446744073709551615", "18446744073709551616"] {
        assert_eq!(parse_usize(s), s.parse::<usize>().ok(), "input {s:?}");
    }
}
