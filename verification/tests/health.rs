//! Tests of health check configuration and probe bookkeeping.

use mik::runtime::lb::backend::Backend;
use mik::runtime::lb::health::{apply_probe_results, HealthCheck, HealthCheckConfig, HealthCheckType};
use std::time::Duration;

#[test]
fn test_health_check_config_default() {
    let config = HealthCheckConfig::default();
    assert_eq!(config.interval, Duration::from_secs(5));
    assert_eq!(config.timeout, Duration::from_millis(2000));
    assert_eq!(
        config.check_type,
        HealthCheckType::Http {
            path: "/health".to_string()
        }
    );
    assert_eq!(config.path(), "/health");
    assert_eq!(config.unhealthy_threshold, 3);
    assert_eq!(config.healthy_threshold, 2);
}

#[test]
fn test_health_check_config_http() {
    let config = HealthCheckConfig::http("/healthz");
    assert_eq!(
        config.check_type,
        HealthCheckType::Http {
            path: "/healthz".to_string()
        }
    );
    assert_eq!(config.path(), "/healthz");
}

#[test]
fn test_health_check_config_tcp() {
    let config = HealthCheckConfig::tcp();
    assert_eq!(config.check_type, HealthCheckType::Tcp);
    assert_eq!(config.path(), "");
}

#[test]
fn test_health_check_config_custom() {
    let config = HealthCheckConfig {
        interval: Duration::from_secs(1),
        timeout: Duration::from_millis(500),
        check_type: HealthCheckType::Http {
            path: "/healthz".to_string(),
        },
        unhealthy_threshold: 5,
        healthy_threshold: 3,
    };

    assert_eq!(config.interval, Duration::from_secs(1));
    assert_eq!(config.path(), "/healthz");
}

#[test]
fn test_health_check_type_default() {
    let check_type = HealthCheckType::default();
    assert_eq!(
        check_type,
        HealthCheckType::Http {
            path: "/health".to_string()
        }
    );
}

#[test]
fn probe_results_mark_backends() {
    let mut backends = vec![Backend::http("a:1"), Backend::http("b:1"), Backend::http("c:1")];
    apply_probe_results(&mut backends, &vec![true, false]);
    assert!(backends[0].is_healthy());
    assert_eq!(backends[0].success_count(), 1);
    assert!(!backends[1].is_healthy());
    assert_eq!(backends[1].failure_count(), 1);
    assert_eq!(backends[2].success_count(), 0);
    assert_eq!(backends[2].failure_count(), 0);
}

#[test]
fn test_health_check_creates_client_for_http() {
    let config = HealthCheckConfig::http("/health");
    let health_check = HealthCheck::new(config).unwrap();
    assert!(health_check.has_client());
}

#[test]
fn test_health_check_no_client_for_tcp() {
    let config = HealthCheckConfig::tcp();
    let health_check = HealthCheck::new(config).unwrap();
    assert!(!health_check.has_client());
}

#[test]
fn probe_urls_follow_the_check_kind() {
    let http = HealthCheck::new(HealthCheckConfig::http("/healthz")).unwrap();
    assert_eq!(http.probe_url("127.0.0.1:3001"), Some("http://127.0.0.1:3001/healthz".to_string()));
    let tcp = HealthCheck::new(HealthCheckConfig::tcp()).unwrap();
    assert_eq!(tcp.probe_url("127.0.0.1:3001"), None);
}
