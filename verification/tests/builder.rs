//! Tests of the runtime builder.

use mik::constants::DEFAULT_PORT;
use mik::manifest::{Manifest, ServerConfig};
use mik::runtime::builder::{RuntimeBuilder, SystemConfig};
use std::path::PathBuf;
use std::time::Duration;

#[test]
fn test_runtime_builder_default() {
    let builder = RuntimeBuilder::new();
    assert_eq!(builder.config().port, DEFAULT_PORT);
}

#[test]
fn test_runtime_builder_modules_dir() {
    let builder = RuntimeBuilder::new().modules_dir("custom/modules");
    assert_eq!(builder.config().modules_path, PathBuf::from("custom/modules"));
}

#[test]
fn test_runtime_builder_cache_size() {
    let builder = RuntimeBuilder::new().cache_size(200);
    assert_eq!(builder.config().cache_size, 200);
}

#[test]
fn test_runtime_builder_execution_timeout() {
    let builder = RuntimeBuilder::new().execution_timeout(Duration::from_secs(60));
    assert_eq!(builder.config().execution_timeout_secs, 60);
}

#[test]
fn test_runtime_builder_from_manifest() {
    let manifest = Manifest::default();
    let builder = RuntimeBuilder::new().from_manifest(&manifest);
    assert_eq!(builder.config().port, DEFAULT_PORT);
}

#[test]
fn test_runtime_builder_chaining() {
    let builder = RuntimeBuilder::new()
        .modules_dir("modules/")
        .cache_size(100)
        .port(8080)
        .execution_timeout(Duration::from_secs(30))
        .max_concurrent_requests(500)
        .hot_reload(true);

    assert_eq!(builder.config().modules_path, PathBuf::from("modules/"));
    assert_eq!(builder.config().cache_size, 100);
    assert_eq!(builder.config().port, 8080);
    assert_eq!(builder.config().execution_timeout_secs, 30);
    assert_eq!(builder.config().max_concurrent_requests, 500);
    assert!(builder.config().hot_reload);
}

#[test]
fn system_limits_are_clamped() {
    let small = SystemConfig::from_resources(0, 0);
    assert_eq!(small.cache_size, 10);
    assert_eq!(small.max_cache_bytes, 64 * 1024 * 1024);
    assert_eq!(small.max_concurrent_requests, 100);
    assert_eq!(small.max_per_module_requests, 10);

    let mid = SystemConfig::from_resources(8 * 1024 * 1024 * 1024, 8);
    assert_eq!(mid.cache_size, 819);
    assert_eq!(mid.max_cache_bytes, 858_993_459);
    assert_eq!(mid.max_concurrent_requests, 1200);
    assert_eq!(mid.max_per_module_requests, 120);

    let big = SystemConfig::from_resources(u64::MAX, usize::MAX);
    assert_eq!(big.cache_size, 1000);
    assert_eq!(big.max_cache_bytes, 1024 * 1024 * 1024);
    assert_eq!(big.max_concurrent_requests, 10000);
    assert_eq!(big.max_per_module_requests, 500);
}

#[test]
fn fixed_server_section_uses_defaults_for_zeros() {
    let server = ServerConfig {
        auto: false,
        port: 9000,
        modules: "mods/".to_string(),
        static_dir: Some("public".to_string()),
        max_cache_mb: 2,
        max_body_size_mb: 1,
        http_allowed: vec!["example.com".to_string()],
        ..ServerConfig::default()
    };
    let b = RuntimeBuilder::new().from_server_config(&server);
    let c = b.config();
    assert_eq!(c.port, 9000);
    assert_eq!(c.modules_path, PathBuf::from("mods/"));
    assert_eq!(c.static_dir, Some(PathBuf::from("public")));
    assert_eq!(c.cache_size, 100);
    assert_eq!(c.max_cache_bytes, 2 * 1024 * 1024);
    assert_eq!(c.max_concurrent_requests, 1000);
    assert_eq!(c.max_per_module_requests, 100);
    assert_eq!(c.max_body_size_bytes, 1024 * 1024);
    assert_eq!(c.http_allowed, vec!["example.com".to_string()]);
    assert_eq!(b.get_port(), 9000);

    let with_mem = RuntimeBuilder::new().from_server_settings(&server, 2048);
    assert_eq!(with_mem.config().memory_limit_bytes, 2048);
}

#[test]
fn setters_change_one_field() {
    let b = RuntimeBuilder::new()
        .shutdown_timeout(Duration::from_millis(2500))
        .fuel_budget(7)
        .aot_cache_max_mb(3)
        .logging(true)
        .scripts_dir("scripts")
        .static_dir("static")
        .memory_limit(4096)
        .max_body_size(10)
        .max_per_module_requests(5)
        .max_cache_bytes(11)
        .execution_timeout_secs(9)
        .http_allowed(vec!["a".to_string()]);
    let c = b.config();
    assert_eq!(c.shutdown_timeout_secs, 2);
    assert_eq!(c.fuel_budget, Some(7));
    assert_eq!(c.aot_cache_max_mb, 3);
    assert!(c.logging_enabled);
    assert_eq!(c.scripts_dir, Some(PathBuf::from("scripts")));
    assert_eq!(c.static_dir, Some(PathBuf::from("static")));
    assert_eq!(c.memory_limit_bytes, 4096);
    assert_eq!(c.max_body_size_bytes, 10);
    assert_eq!(c.max_per_module_requests, 5);
    assert_eq!(c.max_cache_bytes, 11);
    assert_eq!(c.execution_timeout_secs, 9);
    assert_eq!(c.http_allowed.len(), 1);
}

#[test]
fn auto_sizing_takes_the_given_machine_figures() {
    let server = ServerConfig { auto: true, cache_size: 50, ..ServerConfig::default() };
    let sys = SystemConfig::from_resources(8 * 1024 * 1024 * 1024, 8);
    let a = RuntimeBuilder::new().with_server_settings(&server, 4096, &sys);
    let c = a.config();
    assert_eq!(c.cache_size, 50);
    assert_eq!(c.max_cache_bytes, 858_993_459);
    assert_eq!(c.max_concurrent_requests, 1200);
    assert_eq!(c.max_per_module_requests, 120);
    assert_eq!(c.memory_limit_bytes, 4096);
    let b = RuntimeBuilder::new().with_server_settings(&server, 4096, &sys);
    assert_eq!(b.config().max_cache_bytes, c.max_cache_bytes);
    assert_eq!(b.config().port, c.port);
}
