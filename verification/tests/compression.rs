//! Tests of response compression decisions.

use mik::runtime::compression::{
    is_compressible_content_type, maybe_compress_body, maybe_compress_response,
};
use mik::runtime::request::Response;
use std::io::Read;

fn gunzip(data: &[u8]) -> Vec<u8> {
    let mut out = Vec::new();
    flate2::read::GzDecoder::new(data).read_to_end(&mut out).unwrap();
    out
}

#[test]
fn compressible_types() {
    assert!(is_compressible_content_type("text/html"));
    assert!(is_compressible_content_type("application/json"));
    assert!(is_compressible_content_type("application/xml"));
    assert!(is_compressible_content_type("application/javascript"));
    assert!(is_compressible_content_type("image/svg+xml"));
    assert!(!is_compressible_content_type("image/png"));
    assert!(!is_compressible_content_type("application/octet-stream"));
    assert!(!is_compressible_content_type("TEXT/html"));
}

#[test]
fn compresses_large_text_for_gzip_clients() {
    let body = "hello world ".repeat(200).into_bytes();
    let (out, enc) = maybe_compress_body(body.clone(), "text/plain", true);
    assert_eq!(enc, Some("gzip"));
    assert!(out.len() < body.len());
    assert_eq!(gunzip(&out), body);

    let (same, none) = maybe_compress_body(body.clone(), "text/plain", false);
    assert_eq!(none, None);
    assert_eq!(same, body);
    let (same, none) = maybe_compress_body(body.clone(), "image/png", true);
    assert_eq!(none, None);
    assert_eq!(same, body);
    let small = b"tiny".to_vec();
    assert_eq!(maybe_compress_body(small.clone(), "text/plain", true), (small, None));
}

#[test]
fn incompressible_data_is_sent_as_is() {
    let mut x: u32 = 12345;
    let noise: Vec<u8> = (0..4096)
        .map(|_| {
            x ^= x << 13;
            x ^= x >> 17;
            x ^= x << 5;
            x as u8
        })
        .collect();
    let (out, enc) = maybe_compress_body(noise.clone(), "text/plain", true);
    assert_eq!(enc, None);
    assert_eq!(out, noise);
}

#[test]
fn compressed_response_rewrites_headers() {
    let body = "{\"k\": \"value\"}".repeat(100);
    let resp = Response::ok()
        .with_header("Content-Type", "application/json")
        .with_header("Content-Length", "1500")
        .with_body_str(&body);
    let out = maybe_compress_response(resp, true);
    assert_eq!(out.status, 200);
    assert_eq!(out.header("content-encoding"), Some("gzip"));
    assert_eq!(out.header("content-length"), Some(out.body.len().to_string().as_str()));
    assert_eq!(out.headers.len(), 3);
    assert_eq!(gunzip(&out.body), body.as_bytes());

    let plain = Response::ok().with_header("Content-Type", "application/json").with_body_str(&body);
    let unchanged = maybe_compress_response(plain, false);
    assert_eq!(unchanged.body, body.as_bytes());
    assert_eq!(unchanged.headers.len(), 1);
}

#[test]
fn compression_starts_above_the_threshold() {
    let at_threshold = vec![b'a'; 1024];
    assert_eq!(
        maybe_compress_body(at_threshold.clone(), "text/plain", true),
        (at_threshold, None)
    );
    let above = vec![b'a'; 1025];
    let (out, enc) = maybe_compress_body(above.clone(), "text/plain", true);
    assert_eq!(enc, Some("gzip"));
    assert_eq!(gunzip(&out), above);
}
