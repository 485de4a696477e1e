//! Tests of schema paths and answers.

use mik::runtime::schema_handler::{get_schema_path, schema_response, SCHEMA_SOURCE_HEADER, SOURCE_STATIC};
use std::path::PathBuf;

#[test]
fn test_get_schema_path() {
    let modules_dir = PathBuf::from("/modules");
    let path = get_schema_path(&modules_dir, "api");
    assert_eq!(path, PathBuf::from("/modules/api.openapi.json"));
}

#[test]
fn schema_answers() {
    let ok = schema_response(Some(b"{\"openapi\":\"3.0.0\"}".to_vec()));
    assert_eq!(ok.status, 200);
    assert_eq!(ok.header("content-type"), Some("application/json"));
    assert_eq!(ok.header(SCHEMA_SOURCE_HEADER), Some(SOURCE_STATIC));
    assert_eq!(ok.body, b"{\"openapi\":\"3.0.0\"}");

    let missing = schema_response(None);
    assert_eq!(missing.status, 404);
    assert_eq!(missing.body_str().unwrap(), r#"{"error":"Schema not available"}"#);
    assert_eq!(missing.header("x-schema-source"), Some("static"));
}
