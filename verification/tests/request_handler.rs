//! Tests of request routing and the answers built without I/O.

use mik::runtime::error::Error;
use mik::runtime::request::{Request, Response};
use mik::runtime::request_handler::{
    categorize_error, circuit_open_response, error_response, insert_header,
    module_overloaded_response, not_found, parse_module_route, request_trace_id, route_request,
    tag_response, validate_content_length, validate_path_length, Route,
};
use mik::runtime::request_handler::{
    load_admission, module_not_found_response, multi_module_admission,
    single_component_admission, Admission,
};
use mik::runtime::types::ErrorCategory;

#[test]
fn module_routes_split_and_decode() {
    assert_eq!(parse_module_route(""), (String::new(), "/".to_string()));
    assert_eq!(parse_module_route("echo"), ("echo".to_string(), "/".to_string()));
    assert_eq!(parse_module_route("echo/"), ("echo".to_string(), "/".to_string()));
    assert_eq!(
        parse_module_route("api/users/42?x=1"),
        ("api".to_string(), "/users/42?x=1".to_string())
    );
    assert_eq!(
        parse_module_route("my%20mod/a%2Fb"),
        ("my mod".to_string(), "/a/b".to_string())
    );
    assert_eq!(parse_module_route("bad%FF"), ("bad\u{FFFD}".to_string(), "/".to_string()));
}

fn route(path: &str) -> Route {
    route_request(&Request::new("GET", path), 1024, false, true)
}

#[test]
fn routing_follows_prefixes() {
    assert!(matches!(route("/health"), Route::Health));
    assert!(matches!(route("/metrics"), Route::Metrics));
    assert!(matches!(route("/script/checkout"), Route::Script));
    match route("/openapi/api//") {
        Route::Schema(name) => assert_eq!(name, "api"),
        other => panic!("unexpected {other:?}"),
    }
    match route("/run/echo/hello?x=1") {
        Route::Module { module, handler_path } => {
            assert_eq!(module, "echo");
            assert_eq!(handler_path, "/hello");
        },
        other => panic!("unexpected {other:?}"),
    }
    for (path, msg) in [
        ("/static/app.js", "Static file serving not enabled"),
        ("/openapi/", "No module specified. Use /openapi/<module>"),
        ("/run/", "No module specified. Use /run/<module>/"),
        ("/elsewhere", "Not found. WASM modules are served at /run/<module>/"),
    ] {
        match route(path) {
            Route::Respond(resp) => {
                assert_eq!(resp.status, 404);
                assert_eq!(resp.body_str().unwrap(), msg);
            },
            other => panic!("unexpected {other:?} for {path}"),
        }
    }
    assert!(matches!(
        route_request(&Request::new("GET", "/static/x"), 1024, true, true),
        Route::StaticFile
    ));
    match route_request(&Request::new("GET", "/openapi/api"), 1024, false, false) {
        Route::Respond(resp) => assert_eq!(resp.status, 404),
        other => panic!("unexpected {other:?}"),
    }
}

#[test]
fn limits_are_enforced_before_routing() {
    let long = format!("/run/{}", "a".repeat(3000));
    match route(&long) {
        Route::Respond(resp) => {
            assert_eq!(resp.status, 414);
            assert_eq!(
                resp.body_str().unwrap(),
                format!("{{\"error\":\"URI too long\",\"length\":{},\"max\":2048}}", long.len())
            );
        },
        other => panic!("unexpected {other:?}"),
    }
    assert!(validate_path_length("/ok").is_none());
    let big = Request::new("POST", "/run/x/").with_header("Content-Length", "5000");
    match route_request(&big, 1024, false, true) {
        Route::Respond(resp) => {
            assert_eq!(resp.status, 413);
            assert_eq!(
                resp.body_str().unwrap(),
                "{\"error\":\"Request body too large\",\"size\":5000,\"max\":1024}"
            );
        },
        other => panic!("unexpected {other:?}"),
    }
    assert!(validate_content_length(&Request::new("POST", "/").with_header("Content-Length", "10"), 1024).is_none());
    assert!(validate_content_length(&Request::new("POST", "/").with_header("Content-Length", "x"), 1).is_none());
}

#[test]
fn error_answers_are_json() {
    let resp = error_response(&Error::module_not_found("ghost"));
    assert_eq!(resp.status, 404);
    assert_eq!(resp.header("content-type"), Some("application/json"));
    assert_eq!(resp.body_str().unwrap(), r#"{"error":"module not found: ghost","status":404}"#);

    let quoted = error_response(&Error::Config("bad \"x\"\n\u{1}".to_string()));
    assert_eq!(
        quoted.body_str().unwrap(),
        "{\"error\":\"configuration error: bad \\\"x\\\"\\n\\u0001\",\"status\":500}"
    );

    let open = circuit_open_response("api");
    assert_eq!(open.status, 503);
    assert_eq!(open.header("retry-after"), Some("30"));
    let busy = module_overloaded_response("api", 7);
    assert_eq!(busy.status, 429);
    assert_eq!(busy.header("retry-after"), Some("5"));
    assert_eq!(
        busy.body_str().unwrap(),
        r#"{"error":"rate limit exceeded: Module 'api' overloaded (max 7 concurrent)","status":429}"#
    );
    let nf = not_found("nope");
    assert_eq!(nf.status, 404);
    assert!(nf.headers.is_empty());
}

#[test]
fn error_chains_are_categorized() {
    let chain = |msgs: &[&str]| msgs.iter().map(|m| m.to_string()).collect::<Vec<_>>();
    assert_eq!(categorize_error(&chain(&["request timed out"])), ErrorCategory::Timeout);
    assert_eq!(categorize_error(&chain(&["outer", "Failed to load x"])), ErrorCategory::ModuleLoad);
    assert_eq!(categorize_error(&chain(&["Invalid header"])), ErrorCategory::InvalidRequest);
    assert_eq!(categorize_error(&chain(&["Failed to instantiate"])), ErrorCategory::Instantiation);
    assert_eq!(categorize_error(&chain(&["Handler call failed"])), ErrorCategory::Execution);
    assert_eq!(categorize_error(&chain(&["no static file"])), ErrorCategory::StaticFile);
    assert_eq!(categorize_error(&chain(&["boom", "bang"])), ErrorCategory::Internal);
    assert_eq!(categorize_error(&vec![]), ErrorCategory::Internal);
    assert_eq!(ErrorCategory::of_error(&Error::execution_timeout("m", 1)), ErrorCategory::Timeout);
    assert_eq!(ErrorCategory::of_error(&Error::circuit_breaker_open("m")), ErrorCategory::Reliability);
    assert_eq!(ErrorCategory::of_error(&Error::Http("x".into())), ErrorCategory::Internal);
}

#[test]
fn responses_are_tagged_with_ids() {
    let req = Request::new("GET", "/").with_header("X-Trace-Id", "t-1");
    assert_eq!(request_trace_id(&req, "r-9"), "t-1");
    assert_eq!(request_trace_id(&Request::new("GET", "/"), "r-9"), "r-9");

    let resp = Response::ok().with_header("x-request-id", "old").with_header("A", "1");
    let tagged = tag_response(resp, "r-9", "t-1");
    assert_eq!(tagged.header("X-Request-ID"), Some("r-9"));
    assert_eq!(tagged.header("x-trace-id"), Some("t-1"));
    assert_eq!(tagged.headers.len(), 3);
    let replaced = insert_header(Response::ok().with_header("K", "a"), "k", "b");
    assert_eq!(replaced.headers, vec![("k".to_string(), "b".to_string())]);
}

fn answer_of(a: Admission) -> Response {
    match a {
        Admission::Answer(r) => r,
        Admission::Proceed => panic!("expected an answer"),
    }
}

#[test]
fn single_component_serves_only_its_name() {
    assert!(matches!(single_component_admission("app", "app"), Admission::Proceed));
    let r = answer_of(single_component_admission("other", "app"));
    assert_eq!(r.status, 404);
    assert_eq!(r.body_str().unwrap(), r#"{"error":"module not found: other","status":404}"#);
}

#[test]
fn multi_module_admission_checks_breaker_then_slot() {
    assert!(matches!(multi_module_admission("m", true, true, 4), Admission::Proceed));
    let open = answer_of(multi_module_admission("m", false, false, 4));
    assert_eq!(open.status, 503);
    assert_eq!(open.header("Retry-After"), Some("30"));
    assert_eq!(
        open.body_str().unwrap(),
        r#"{"error":"circuit breaker open for module 'm'","status":503}"#
    );
    let busy = answer_of(multi_module_admission("m", true, false, 4));
    assert_eq!(busy.status, 429);
    assert_eq!(
        busy.body_str().unwrap(),
        r#"{"error":"rate limit exceeded: Module 'm' overloaded (max 4 concurrent)","status":429}"#
    );
}

#[test]
fn failed_load_is_not_found() {
    assert!(matches!(load_admission("m", true), Admission::Proceed));
    let r = answer_of(load_admission("m", false));
    assert_eq!(r.status, 404);
    assert_eq!(r.header("content-type"), Some("application/json"));
    assert_eq!(module_not_found_response("m").body, r.body);
}
