//! Tests of runtime error messages and status codes.

use mik::runtime::error::Error;
use std::path::PathBuf;

#[test]
fn test_module_not_found_display() {
    let err = Error::ModuleNotFound {
        name: "api".to_string(),
    };
    assert_eq!(err.to_string(), "module not found: api");
    assert!(err.to_string().contains("api"));
}

#[test]
fn test_module_not_found_helper() {
    let err = Error::module_not_found("my-service");
    assert_eq!(err.to_string(), "module not found: my-service");
}

#[test]
fn test_module_load_failed_display() {
    let err = Error::ModuleLoadFailed {
        name: "broken".to_string(),
        reason: "invalid wasm magic".to_string(),
    };
    assert_eq!(
        err.to_string(),
        "failed to load module 'broken': invalid wasm magic"
    );
    assert!(err.to_string().contains("broken"));
    assert!(err.to_string().contains("invalid wasm magic"));
}

#[test]
fn test_module_load_failed_helper() {
    let err = Error::module_load_failed("test", "compile error");
    assert_eq!(
        err.to_string(),
        "failed to load module 'test': compile error"
    );
}

#[test]
fn test_execution_timeout_display() {
    let err = Error::ExecutionTimeout {
        name: "slow-handler".to_string(),
        timeout_secs: 30,
    };
    assert_eq!(err.to_string(), "module 'slow-handler' timed out after 30s");
    assert!(err.to_string().contains("slow-handler"));
    assert!(err.to_string().contains("30"));
}

#[test]
fn test_execution_timeout_helper() {
    let err = Error::execution_timeout("handler", 60);
    assert_eq!(err.to_string(), "module 'handler' timed out after 60s");
}

#[test]
fn test_memory_limit_exceeded_display() {
    let err = Error::MemoryLimitExceeded {
        module: "greedy".to_string(),
        limit_bytes: 268_435_456, // 256 MB
    };
    assert_eq!(
        err.to_string(),
        "module 'greedy' exceeded memory limit of 268435456 bytes"
    );
    assert!(err.to_string().contains("greedy"));
    assert!(err.to_string().contains("268435456"));
}

#[test]
fn test_memory_limit_exceeded_helper() {
    let err = Error::memory_limit_exceeded("test-module", 1024);
    assert_eq!(
        err.to_string(),
        "module 'test-module' exceeded memory limit of 1024 bytes"
    );
}

#[test]
fn test_circuit_breaker_open_display() {
    let err = Error::CircuitBreakerOpen {
        name: "flaky-service".to_string(),
    };
    assert_eq!(
        err.to_string(),
        "circuit breaker open for module 'flaky-service'"
    );
    assert!(err.to_string().contains("flaky-service"));
}

#[test]
fn test_circuit_breaker_open_helper() {
    let err = Error::circuit_breaker_open("failing");
    assert_eq!(err.to_string(), "circuit breaker open for module 'failing'");
}

#[test]
fn test_rate_limit_exceeded_display() {
    let err = Error::RateLimitExceeded {
        reason: "too many requests".to_string(),
    };
    assert_eq!(err.to_string(), "rate limit exceeded: too many requests");
}

#[test]
fn test_rate_limit_exceeded_helper() {
    let err = Error::rate_limit_exceeded("burst limit");
    assert_eq!(err.to_string(), "rate limit exceeded: burst limit");
}

#[test]
fn test_path_traversal_display() {
    let err = Error::PathTraversal {
        path: PathBuf::from("../../../etc/passwd"),
    };
    assert!(err.to_string().contains("path traversal blocked"));
    assert!(err.to_string().contains("etc/passwd"));
}

#[test]
fn test_path_traversal_helper() {
    let err = Error::path_traversal("/etc/shadow");
    assert!(err.to_string().contains("path traversal blocked"));
}

#[test]
fn test_script_error_display() {
    let err = Error::ScriptError {
        name: "router.js".to_string(),
        reason: "undefined is not a function".to_string(),
    };
    assert_eq!(
        err.to_string(),
        "script 'router.js' failed: undefined is not a function"
    );
}

#[test]
fn test_script_error_helper() {
    let err = Error::script_error("test.js", "syntax error");
    assert_eq!(err.to_string(), "script 'test.js' failed: syntax error");
}

#[test]
fn error_test_config_error_display() {
    let err = Error::Config("invalid port number".to_string());
    assert_eq!(err.to_string(), "configuration error: invalid port number");
}

#[test]
fn test_http_error_display() {
    let err = Error::Http("connection refused".to_string());
    assert_eq!(err.to_string(), "HTTP error: connection refused");
}

#[test]
fn test_invalid_request_display() {
    let err = Error::InvalidRequest("missing Content-Type".to_string());
    assert_eq!(err.to_string(), "invalid request: missing Content-Type");
}

#[test]
fn test_io_error_display() {
    let io_err = std::io::Error::new(std::io::ErrorKind::NotFound, "file not found");
    let err = Error::Io {
        context: "reading config".to_string(),
        source: io_err,
    };
    assert!(err.to_string().contains("IO error in reading config"));
    assert!(err.to_string().contains("file not found"));
}

#[test]
fn test_io_error_helper() {
    let io_err = std::io::Error::new(std::io::ErrorKind::PermissionDenied, "access denied");
    let err = Error::io("opening file", io_err);
    assert!(err.to_string().contains("IO error in opening file"));
}

// Test HTTP status codes
#[test]
fn test_status_code_module_not_found() {
    let err = Error::module_not_found("test");
    assert_eq!(err.status_code(), 404);
}

#[test]
fn test_status_code_script_not_found() {
    let err = Error::ScriptNotFound {
        name: "test.js".to_string(),
    };
    assert_eq!(err.status_code(), 404);
}

#[test]
fn test_status_code_path_traversal() {
    let err = Error::path_traversal("../secret");
    assert_eq!(err.status_code(), 400);
}

#[test]
fn test_status_code_invalid_request() {
    let err = Error::InvalidRequest("bad input".to_string());
    assert_eq!(err.status_code(), 400);
}

#[test]
fn test_status_code_circuit_breaker_open() {
    let err = Error::circuit_breaker_open("test");
    assert_eq!(err.status_code(), 503);
}

#[test]
fn test_status_code_rate_limit_exceeded() {
    let err = Error::rate_limit_exceeded("quota exhausted");
    assert_eq!(err.status_code(), 429);
}

#[test]
fn test_status_code_execution_timeout() {
    let err = Error::execution_timeout("test", 30);
    assert_eq!(err.status_code(), 504);
}

#[test]
fn test_status_code_memory_limit_exceeded() {
    let err = Error::memory_limit_exceeded("test", 1024);
    assert_eq!(err.status_code(), 507);
}

#[test]
fn test_status_code_module_load_failed() {
    let err = Error::module_load_failed("test", "error");
    assert_eq!(err.status_code(), 500);
}

#[test]
fn test_status_code_script_error() {
    let err = Error::script_error("test.js", "error");
    assert_eq!(err.status_code(), 500);
}

#[test]
fn test_status_code_config_error() {
    let err = Error::Config("bad config".to_string());
    assert_eq!(err.status_code(), 500);
}

#[test]
fn test_status_code_http_error() {
    let err = Error::Http("network error".to_string());
    assert_eq!(err.status_code(), 500);
}


#[test]
fn test_error_debug() {
    let err = Error::module_not_found("test");
    let debug_str = format!("{err:?}");
    assert!(debug_str.contains("ModuleNotFound"));
    assert!(debug_str.contains("test"));
}

#[test]
fn path_traversal_message_quotes_the_path() {
    let err = Error::path_traversal("../secret");
    assert_eq!(err.to_string(), "path traversal blocked: \"../secret\"");
    assert_eq!(Error::ScriptNotFound { name: "a.js".to_string() }.to_string(), "script not found: a.js");
    assert_eq!(Error::Config("x".to_string()).status_code(), 500);
}
