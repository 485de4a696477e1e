//! Tests of the decisions of a script run.

use mik::runtime::script::orchestration::{
    check_script_body_size, failure_body_json, handler_call_request, script_name_from_path,
    script_file_path, CallOutcome, HostCallFailure, ScriptCalls, ScriptEnd, ScriptNameError,
};
use std::path::PathBuf;
use mik::runtime::security::ModuleNameError;

#[test]
fn script_names_come_from_the_path() {
    assert_eq!(script_name_from_path("/script/checkout"), Ok("checkout".to_string()));
    assert_eq!(script_name_from_path("/script/checkout/extra"), Ok("checkout".to_string()));
    assert_eq!(script_name_from_path("/script//orders/x"), Ok("orders".to_string()));
    assert_eq!(script_name_from_path("/script/"), Err(ScriptNameError::Missing));
    assert_eq!(script_name_from_path("/script"), Ok("script".to_string()));
    assert_eq!(
        script_name_from_path("/script/.."),
        Err(ScriptNameError::Invalid(ModuleNameError::SpecialDirectory))
    );
    assert_eq!(ScriptNameError::Missing.to_string(), "Missing script name");
    assert_eq!(
        ScriptNameError::Invalid(ModuleNameError::SpecialDirectory).to_string(),
        "Invalid script name: Module name cannot be '.' or '..'"
    );
}

#[test]
fn body_limits() {
    assert!(check_script_body_size(10, 10).is_ok());
    assert_eq!(
        check_script_body_size(11, 10),
        Err("Request body too large: 11 bytes (max: 10 bytes)".to_string())
    );
}

#[test]
fn failed_calls_are_reported_as_json() {
    assert_eq!(HostCallFailure::CircuitOpen.status(), 503);
    assert_eq!(HostCallFailure::RateLimited.status(), 429);
    assert_eq!(HostCallFailure::ModuleNotFound.code(), "MODULE_NOT_FOUND");
    assert_eq!(
        failure_body_json(HostCallFailure::HandlerError, "boom \"x\""),
        r#"{"error":"HANDLER_ERROR","message":"boom \"x\""}"#
    );
    assert_eq!(
        failure_body_json(HostCallFailure::RateLimited, "ignored"),
        r#"{"error":"RATE_LIMITED","message":"Module overloaded"}"#
    );
}

#[test]
fn runs_end_with_counts_or_errors() {
    let mut run = ScriptCalls::new();
    assert_eq!(run.record_call(&CallOutcome::Answered(200)), None);
    assert_eq!(run.record_call(&CallOutcome::Answered(404)), Some("HTTP 404".to_string()));
    assert_eq!(run.finish(&ScriptEnd::Returned), Ok(2));
    assert_eq!(run.finish(&ScriptEnd::Threw("bad".into())), Err("Script error: bad".to_string()));
    assert_eq!(
        run.finish(&ScriptEnd::Panicked("oops".into())),
        Err("Script panicked: oops".to_string())
    );
    assert_eq!(run.record_call(&CallOutcome::Failed("down".into())), Some("down".to_string()));
    assert_eq!(run.record_call(&CallOutcome::Answered(201)), None);
    assert_eq!(run.finish(&ScriptEnd::Returned), Err("Handler error: down".to_string()));
}

#[test]
fn handler_requests_carry_host_and_trace() {
    let (uri, headers) = handler_call_request(
        "/orders?id=1",
        "t-1",
        &vec![("accept".to_string(), "*/*".to_string())],
        true,
    );
    assert_eq!(uri, "http://localhost/orders?id=1");
    assert_eq!(
        headers,
        vec![
            ("host".to_string(), "localhost".to_string()),
            ("x-trace-id".to_string(), "t-1".to_string()),
            ("accept".to_string(), "*/*".to_string()),
            ("content-type".to_string(), "application/json".to_string()),
        ]
    );
    let (_, bare) = handler_call_request("/", "t", &vec![], false);
    assert_eq!(bare.len(), 2);
}

#[test]
fn script_files_are_named_after_the_script() {
    assert_eq!(
        script_file_path(&PathBuf::from("scripts"), "checkout"),
        PathBuf::from("scripts/checkout.js")
    );
}
