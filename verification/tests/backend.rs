//! Tests of backend health bookkeeping and header forwarding.

use mik::runtime::lb::backend::{
    forward_headers, is_hop_by_hop_header, Backend, BackendHealth, BackendState, BackendType,
    HttpBackend, RuntimeBackend,
};
use mik::runtime::lb::circuit_breaker::CircuitBreakerConfig;
use std::time::{Duration, Instant};

#[test]
fn test_http_backend_new() {
    let mut backend = HttpBackend::new("127.0.0.1:3001".to_string());
    assert_eq!(backend.address(), "127.0.0.1:3001");
    assert!(backend.is_healthy());
    assert!(backend.is_available());
}

#[test]
fn test_http_backend_url() {
    let backend = HttpBackend::new("127.0.0.1:3001".to_string());
    assert_eq!(backend.url("/health"), "http://127.0.0.1:3001/health");
    assert_eq!(backend.url("/run/echo/"), "http://127.0.0.1:3001/run/echo/");
}

#[test]
fn test_http_backend_health_transitions() {
    let mut backend = HttpBackend::new("127.0.0.1:3001".to_string());

    assert!(backend.is_healthy());
    assert_eq!(backend.failure_count(), 0);
    assert_eq!(backend.success_count(), 0);

    backend.mark_healthy();
    assert!(backend.is_healthy());
    assert_eq!(backend.success_count(), 1);

    backend.mark_unhealthy();
    assert!(!backend.is_healthy());
    assert_eq!(backend.failure_count(), 1);
    assert_eq!(backend.success_count(), 0);
}

#[test]
fn test_http_backend_request_tracking() {
    let mut backend = HttpBackend::new("127.0.0.1:3001".to_string());

    assert_eq!(backend.active_requests(), 0);

    backend.start_request();
    assert_eq!(backend.active_requests(), 1);

    backend.start_request();
    assert_eq!(backend.active_requests(), 2);

    backend.end_request();
    assert_eq!(backend.active_requests(), 1);

    backend.end_request();
    assert_eq!(backend.active_requests(), 0);
}

#[test]
fn test_http_backend_capacity() {
    let mut backend = HttpBackend::with_options("127.0.0.1:3001".to_string(), 1, 2);
    assert!(backend.has_capacity());

    backend.start_request();
    assert!(backend.has_capacity());

    backend.start_request();
    assert!(!backend.has_capacity());

    backend.end_request();
    assert!(backend.has_capacity());
}

#[test]
fn test_backend_enum_http() {
    let mut backend = Backend::http("127.0.0.1:3001");
    assert_eq!(backend.id(), "127.0.0.1:3001");
    assert!(backend.is_healthy());
    assert!(backend.is_available());
    assert!(backend.has_capacity());

    let health = backend.health();
    assert!(health.healthy);
    assert_eq!(health.backend_type, BackendType::Http);
}

#[test]
fn test_hop_by_hop_headers() {
    assert!(is_hop_by_hop_header("connection"));
    assert!(is_hop_by_hop_header("Connection"));
    assert!(is_hop_by_hop_header("keep-alive"));
    assert!(is_hop_by_hop_header("transfer-encoding"));
    assert!(!is_hop_by_hop_header("content-type"));
    assert!(!is_hop_by_hop_header("x-custom-header"));
}

#[test]
fn test_backend_health_struct() {
    let health = BackendHealth {
        backend_id: "test".to_string(),
        healthy: true,
        latency_ms: Some(50),
        last_check: Some(Instant::now()),
        active_requests: 5,
        total_requests: 100,
        backend_type: BackendType::Http,
    };

    assert_eq!(health.backend_id, "test");
    assert!(health.healthy);
    assert_eq!(health.latency_ms, Some(50));
    assert_eq!(health.backend_type, BackendType::Http);
}

#[test]
fn backend_state_follows_health_checks() {
    let mut backend = HttpBackend::new("10.0.0.1:80".to_string());
    assert_eq!(backend.state(), BackendState::Unknown);
    backend.mark_unhealthy();
    assert_eq!(backend.state(), BackendState::Unhealthy);
    backend.mark_healthy();
    assert_eq!(backend.state(), BackendState::Healthy);
    assert_eq!(BackendState::Draining.to_string(), "draining");
    assert_eq!(BackendType::Runtime.to_string(), "runtime");
}

#[test]
fn unhealthy_or_open_backends_are_unavailable() {
    let mut backend = Backend::http_with_circuit_breaker(
        "127.0.0.1:3002",
        CircuitBreakerConfig::new(2, 1, Duration::from_secs(60)),
    );
    assert!(backend.is_available());
    backend.record_failure();
    assert!(backend.is_available());
    backend.record_failure();
    assert!(!backend.is_available());
    assert_eq!(backend.health().total_requests, 2);

    let mut runtime = Backend::runtime("rt-1");
    runtime.mark_unhealthy();
    assert!(!runtime.is_available());
    assert_eq!(runtime.id(), "rt-1");
    assert_eq!(runtime.health().backend_type, BackendType::Runtime);
}

#[test]
fn latency_and_counters_show_in_health() {
    let mut backend = RuntimeBackend::with_options("rt".to_string(), 0, 0);
    assert!(backend.has_capacity());
    backend.start_request();
    assert!(!backend.has_capacity());
    assert_eq!(backend.health().latency_ms, None);
    backend.record_latency(12);
    backend.record_success();
    let h = backend.health();
    assert_eq!(h.latency_ms, Some(12));
    assert_eq!(h.total_requests, 1);
    assert_eq!(h.active_requests, 1);
    backend.end_request();
    backend.end_request();
    assert_eq!(backend.active_requests(), u64::MAX);
}

#[test]
fn hop_by_hop_headers_are_not_forwarded() {
    let headers = vec![
        ("Connection".to_string(), "keep-alive".to_string()),
        ("Content-Type".to_string(), "text/plain".to_string()),
        ("Upgrade".to_string(), "h2c".to_string()),
        ("X-Trace".to_string(), "1".to_string()),
    ];
    let out = forward_headers(&headers);
    assert_eq!(
        out,
        vec![
            ("Content-Type".to_string(), "text/plain".to_string()),
            ("X-Trace".to_string(), "1".to_string()),
        ]
    );
}
