//! Tests of host configuration validation.

use mik::runtime::host_config::{
    ConfigError, HostConfig, MAX_EXECUTION_TIMEOUT_SECS, MAX_MEMORY_LIMIT_BYTES,
    MIN_MEMORY_LIMIT_BYTES,
};

#[test]
fn test_default_config_is_valid() {
    let config = HostConfig::default();
    assert!(config.validate().is_ok());
}

#[test]
fn test_zero_timeout_is_invalid() {
    let config = HostConfig {
        execution_timeout_secs: 0,
        ..Default::default()
    };

    let result = config.validate();
    assert!(result.is_err());

    let err = result.unwrap_err();
    assert!(matches!(err, ConfigError::Timeout { value: 0, .. }));
    assert!(err.to_string().contains("must be greater than 0"));
}

#[test]
fn test_excessive_timeout_is_invalid() {
    let config = HostConfig {
        execution_timeout_secs: 301,
        ..Default::default()
    };

    let result = config.validate();
    assert!(result.is_err());
    assert!(matches!(
        result.unwrap_err(),
        ConfigError::Timeout { value: 301, .. }
    ));
}

#[test]
fn test_memory_limit_too_small() {
    let config = HostConfig {
        memory_limit_bytes: 100,
        ..Default::default()
    };

    let result = config.validate();
    assert!(result.is_err());
    assert!(matches!(
        result.unwrap_err(),
        ConfigError::MemoryLimit { .. }
    ));
}

#[test]
fn test_memory_limit_too_large() {
    let config = HostConfig {
        memory_limit_bytes: 5 * 1024 * 1024 * 1024,
        ..Default::default()
    };

    let result = config.validate();
    assert!(result.is_err());
}

#[test]
fn test_zero_concurrent_requests_is_invalid() {
    let config = HostConfig {
        max_concurrent_requests: 0,
        ..Default::default()
    };

    let result = config.validate();
    assert!(result.is_err());
    assert!(matches!(
        result.unwrap_err(),
        ConfigError::Concurrency { .. }
    ));
}

#[test]
fn test_per_module_exceeds_total_concurrent() {
    let config = HostConfig {
        max_concurrent_requests: 10,
        max_per_module_requests: 20,
        ..Default::default()
    };

    let result = config.validate();
    assert!(result.is_err());
}

#[test]
fn test_per_module_equal_to_total_is_valid() {
    let config = HostConfig {
        max_concurrent_requests: 10,
        max_per_module_requests: 10,
        ..Default::default()
    };

    assert!(config.validate().is_ok());
}

#[test]
fn test_valid_memory_limit_at_boundaries() {
    let min_config = HostConfig {
        memory_limit_bytes: MIN_MEMORY_LIMIT_BYTES,
        ..Default::default()
    };
    assert!(min_config.validate().is_ok());

    let max_config = HostConfig {
        memory_limit_bytes: MAX_MEMORY_LIMIT_BYTES as usize,
        ..Default::default()
    };
    assert!(max_config.validate().is_ok());
}

#[test]
fn test_valid_timeout_at_boundary() {
    let config = HostConfig {
        execution_timeout_secs: MAX_EXECUTION_TIMEOUT_SECS,
        ..Default::default()
    };
    assert!(config.validate().is_ok());
}

#[test]
fn host_config_test_config_error_display() {
    let timeout_err = ConfigError::Timeout {
        value: 0,
        reason: "must be greater than 0",
    };
    assert!(timeout_err.to_string().contains("execution_timeout_secs"));

    let memory_err = ConfigError::MemoryLimit {
        value: 100,
        reason: "too small",
    };
    assert!(memory_err.to_string().contains("memory_limit_bytes"));

    let concurrency_err = ConfigError::Concurrency {
        reason: "invalid config",
    };
    assert!(concurrency_err.to_string().contains("concurrency"));
}

#[test]
fn config_error_messages_are_exact() {
    let err = HostConfig { execution_timeout_secs: 301, ..Default::default() }
        .validate()
        .unwrap_err();
    assert_eq!(
        err.to_string(),
        "invalid execution_timeout_secs=301: must be <= 300 seconds (5 minutes)"
    );
    let err = HostConfig { memory_limit_bytes: 100, ..Default::default() }
        .validate()
        .unwrap_err();
    assert_eq!(
        err.to_string(),
        "invalid memory_limit_bytes=100: must be >= 1MB (1048576 bytes)"
    );
    let err = HostConfig { max_per_module_requests: 2000, ..Default::default() }
        .validate()
        .unwrap_err();
    assert_eq!(
        err.to_string(),
        "invalid concurrency configuration: max_per_module_requests cannot exceed max_concurrent_requests"
    );
}
