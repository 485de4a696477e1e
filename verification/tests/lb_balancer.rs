//! Tests of the load balancer's configuration, builders and proxy accounting.

use mik::manifest::LbConfig;
use mik::runtime::lb::backend::Backend;
use mik::runtime::lb::health::{HealthCheckConfig, HealthCheckType};
use mik::runtime::lb::proxy::{LbBuildError, SelectResult};
use mik::runtime::lb::selection::LoadBalanceStrategy;
use mik::runtime::lb::{LoadBalancer, LoadBalancerConfig, Proxy};
use mik::runtime::request::Response;
use std::time::Duration;

#[test]
fn test_load_balancer_config_default() {
    let config = LoadBalancerConfig::default();
    assert_eq!(config.listen_addr, "0.0.0.0:3000");
    assert!(config.backends.is_empty());
    assert_eq!(config.request_timeout, Duration::from_secs(30));
}

#[test]
fn test_load_balancer_config_from_manifest() {
    let lb_config = LbConfig {
        enabled: true,
        health_check_type: "http".to_string(),
        health_check_interval_ms: 10000,
        health_check_timeout_ms: 3000,
        health_check_path: "/healthz".to_string(),
        unhealthy_threshold: 5,
        healthy_threshold: 3,
        request_timeout_secs: 60,
        max_connections_per_backend: 200,
        pool_idle_timeout_secs: 120,
        tcp_keepalive_secs: 30,
        http2_only: true,
    };

    let config = LoadBalancerConfig::from_manifest(
        &lb_config,
        "0.0.0.0:8080",
        vec!["127.0.0.1:3001".to_string(), "127.0.0.1:3002".to_string()],
    );

    assert_eq!(config.listen_addr, "0.0.0.0:8080");
    assert_eq!(config.backends.len(), 2);
    assert_eq!(config.request_timeout, Duration::from_secs(60));
    assert_eq!(config.max_connections_per_backend, 200);
    assert_eq!(config.pool_idle_timeout_secs, 120);
    assert_eq!(config.tcp_keepalive_secs, 30);
    assert!(config.http2_only);

    assert_eq!(config.health_check.interval, Duration::from_millis(10000));
    assert_eq!(config.health_check.timeout, Duration::from_millis(3000));
    assert_eq!(config.health_check.path(), "/healthz");
    assert_eq!(config.health_check.unhealthy_threshold, 5);
    assert_eq!(config.health_check.healthy_threshold, 3);
}

#[test]
fn test_load_balancer_config_from_manifest_defaults() {
    let lb_config = LbConfig::default();

    let config = LoadBalancerConfig::from_manifest(&lb_config, "0.0.0.0:3000", vec![]);

    assert_eq!(config.request_timeout, Duration::from_secs(30));
    assert_eq!(config.max_connections_per_backend, 100);
    assert_eq!(config.pool_idle_timeout_secs, 90);
    assert_eq!(config.tcp_keepalive_secs, 60);
    assert!(!config.http2_only);
    assert_eq!(config.health_check.interval, Duration::from_millis(5000));
    assert_eq!(config.health_check.timeout, Duration::from_millis(2000));
    assert_eq!(config.health_check.path(), "/health");
    assert_eq!(config.health_check.unhealthy_threshold, 3);
    assert_eq!(config.health_check.healthy_threshold, 2);
    assert_eq!(
        config.health_check.check_type,
        HealthCheckType::Http {
            path: "/health".to_string()
        }
    );
}

#[test]
fn test_load_balancer_config_from_manifest_tcp_health_check() {
    let lb_config = LbConfig {
        health_check_type: "tcp".to_string(),
        ..LbConfig::default()
    };

    let config = LoadBalancerConfig::from_manifest(
        &lb_config,
        "0.0.0.0:3000",
        vec!["127.0.0.1:3001".to_string()],
    );

    assert_eq!(config.health_check.check_type, HealthCheckType::Tcp);
    assert_eq!(config.health_check.path(), "");
}

#[test]
fn test_load_balancer_config_from_manifest_tcp_case_insensitive() {
    for health_check_type in ["TCP", "Tcp", "tcp", "  TCP  "] {
        let lb_config = LbConfig {
            health_check_type: health_check_type.trim().to_string(),
            ..LbConfig::default()
        };

        let config = LoadBalancerConfig::from_manifest(&lb_config, "0.0.0.0:3000", vec![]);

        assert_eq!(
            config.health_check.check_type,
            HealthCheckType::Tcp,
            "Failed for health_check_type: {health_check_type}"
        );
    }
}

#[test]
fn test_config_into_builder() {
    let config = LoadBalancerConfig {
        listen_addr: "127.0.0.1:8080".to_string(),
        backends: vec!["127.0.0.1:3001".to_string(), "127.0.0.1:3002".to_string()],
        ..Default::default()
    };

    let lb = config.into_builder().build();
    assert!(lb.is_ok());
}

#[test]
fn test_proxy_builder_requires_backends() {
    let result = Proxy::builder().build();
    assert!(result.is_err());
    assert!(result.err().unwrap().to_string().contains("backend"));
}

#[test]
fn test_proxy_builder_with_http_backend() {
    let result = Proxy::builder()
        .http_backend("127.0.0.1:3001")
        .http_backend("127.0.0.1:3002")
        .build();
    assert!(result.is_ok());
}

#[test]
fn test_proxy_builder_configuration() {
    let result = Proxy::builder()
        .http_backend("127.0.0.1:3001")
        .strategy(LoadBalanceStrategy::RoundRobin)
        .request_timeout(Duration::from_secs(60))
        .max_connections_per_backend(200)
        .pool_idle_timeout(Duration::from_secs(120))
        .tcp_keepalive(Duration::from_secs(30))
        .http2_only(true)
        .health_check(Some(HealthCheckConfig::http("/healthz")))
        .build();
    assert!(result.is_ok());
}

#[test]
fn test_proxy_builder_no_health_check() {
    let result = Proxy::builder()
        .http_backend("127.0.0.1:3001")
        .health_check(None)
        .build();
    assert!(result.is_ok());
}

#[test]
fn test_load_balancer_builder_requires_backends() {
    let result = LoadBalancer::builder().build();
    assert!(result.is_err());
    assert!(result.err().unwrap().to_string().contains("backend"));
}

#[test]
fn test_load_balancer_builder_with_backends() {
    let result = LoadBalancer::builder()
        .backend("127.0.0.1:3001")
        .backend("127.0.0.1:3002")
        .build();
    assert!(result.is_ok());
}

#[test]
fn test_load_balancer_builder_configuration() {
    let result = LoadBalancer::builder()
        .listen("127.0.0.1:8080")
        .backend("127.0.0.1:3001")
        .strategy(LoadBalanceStrategy::RoundRobin)
        .health_check_path("/healthz")
        .request_timeout(Duration::from_secs(60))
        .max_connections_per_backend(200)
        .pool_idle_timeout(Duration::from_secs(120))
        .tcp_keepalive(Duration::from_secs(30))
        .http2_only(true)
        .build();
    assert!(result.is_ok());

    let lb = result.ok().unwrap();
    assert_eq!(lb.addr(), "127.0.0.1:8080");
    assert!(lb.http2_only());
}

#[test]
fn test_load_balancer_builder_multiple_backends() {
    let result = LoadBalancer::builder()
        .backends(&["127.0.0.1:3001", "127.0.0.1:3002", "127.0.0.1:3003"])
        .build();
    assert!(result.is_ok());
    assert_eq!(result.ok().unwrap().proxy().backends().len(), 3);
}

#[test]
fn test_load_balancer_new() {
    let proxy = Proxy::builder()
        .http_backend("127.0.0.1:3001")
        .build()
        .ok()
        .unwrap();

    let lb = LoadBalancer::new(proxy, "127.0.0.1:8080");

    assert_eq!(lb.addr(), "127.0.0.1:8080");
}

#[test]
fn test_load_balancer_default_address() {
    let result = LoadBalancer::builder().backend("127.0.0.1:3001").build();
    assert!(result.is_ok());

    let lb = result.ok().unwrap();
    assert_eq!(lb.addr(), "0.0.0.0:3000");
}

#[test]
fn build_errors_name_their_cause() {
    assert_eq!(LbBuildError::NoBackends.to_string(), "At least one backend must be configured");
    assert_eq!(LbBuildError::HttpClient.to_string(), "Failed to create HTTP client");
}

#[test]
fn proxy_rotates_and_accounts_for_outcomes() {
    let mut proxy = Proxy::builder()
        .backend(Backend::http("a:1"))
        .backend(Backend::http("b:2"))
        .build()
        .ok()
        .unwrap();
    // Fresh backends are healthy: the rotation starts at the first one.
    assert_eq!(proxy.select(), SelectResult::Selected(0));
    assert_eq!(proxy.select(), SelectResult::Selected(1));
    assert_eq!(proxy.select(), SelectResult::Selected(0));

    proxy.start_request(0);
    assert_eq!(proxy.backends()[0].active_requests(), 1);
    let ok = proxy.finish_forward(0, Ok(Response::new(201)));
    assert_eq!(ok.status, 201);
    assert_eq!(proxy.backends()[0].active_requests(), 0);
    assert_eq!(proxy.health_status()[0].total_requests, 1);

    proxy.start_request(1);
    let failed = proxy.finish_forward(1, Err("connection refused".to_string()));
    assert_eq!(failed.status, 502);
    assert_eq!(failed.body_str().unwrap(), "Backend error: connection refused");
    assert_eq!(proxy.health_status()[1].total_requests, 1);
    assert_eq!(proxy.health_status()[1].active_requests, 0);

}

#[test]
fn proxy_takes_probe_results_and_latencies() {
    let mut proxy = Proxy::builder()
        .http_backend("a:1")
        .http_backend("b:2")
        .build()
        .ok()
        .unwrap();
    proxy.apply_probe_results(&vec![false, true]);
    assert!(!proxy.backends()[0].is_healthy());
    assert!(proxy.backends()[1].is_healthy());
    // Only the healthy backend is chosen now.
    assert_eq!(proxy.select(), SelectResult::Selected(1));
    assert_eq!(proxy.select(), SelectResult::Selected(1));
    proxy.apply_probe_results(&vec![false, false]);
    assert_eq!(proxy.select(), SelectResult::NoHealthyBackends);
    proxy.record_latency(0, 12);
    assert_eq!(proxy.health_status()[0].latency_ms, Some(12));
}
