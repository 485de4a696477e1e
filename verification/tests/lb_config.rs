//! Tests of load balancer settings from the manifest, reload types and metrics figures.

use mik::manifest::LbConfig;
use mik::runtime::lb::health::{HealthCheckConfig, HealthCheckType};
use mik::runtime::lb::metrics::backend_counts;
use mik::runtime::lb::reload::{ReloadConfig, ReloadResult, ReloadSignal};
use std::time::Duration;

#[test]
fn health_checks_from_manifest() {
    let lb = LbConfig {
        enabled: true,
        health_check_type: "http".to_string(),
        health_check_interval_ms: 10000,
        health_check_timeout_ms: 3000,
        health_check_path: "/healthz".to_string(),
        unhealthy_threshold: 5,
        healthy_threshold: 3,
        request_timeout_secs: 60,
        max_connections_per_backend: 200,
        pool_idle_timeout_secs: 120,
        tcp_keepalive_secs: 30,
        http2_only: true,
    };
    let hc = HealthCheckConfig::from_lb_config(&lb);
    assert_eq!(hc.interval, Duration::from_millis(10000));
    assert_eq!(hc.timeout, Duration::from_millis(3000));
    assert_eq!(hc.path(), "/healthz");
    assert_eq!(hc.unhealthy_threshold, 5);
    assert_eq!(hc.healthy_threshold, 3);

    let defaults = HealthCheckConfig::from_lb_config(&LbConfig::default());
    assert_eq!(defaults.interval, Duration::from_millis(5000));
    assert_eq!(defaults.timeout, Duration::from_millis(2000));
    assert_eq!(defaults.check_type, HealthCheckType::Http { path: "/health".to_string() });
    assert_eq!(defaults.unhealthy_threshold, 3);
    assert_eq!(defaults.healthy_threshold, 2);

    for kind in ["TCP", "Tcp", "tcp"] {
        let c = HealthCheckConfig::from_lb_config(&LbConfig { health_check_type: kind.to_string(), ..LbConfig::default() });
        assert_eq!(c.check_type, HealthCheckType::Tcp, "{kind}");
        assert_eq!(c.path(), "");
    }
}

#[test]
fn reload_types() {
    assert_eq!(ReloadConfig::default().drain_timeout, Duration::from_secs(30));
    assert_eq!(ReloadConfig::with_drain_timeout(Duration::from_secs(5)).drain_timeout, Duration::from_secs(5));
    let signal = ReloadSignal::new(vec!["a:1".to_string()]);
    assert_eq!(signal.backends, vec!["a:1".to_string()]);
    let none = ReloadResult { added: vec![], draining: vec![], unchanged: vec!["a".into()] };
    assert!(!none.has_changes());
    let some = ReloadResult { added: vec![], draining: vec!["b".into()], unchanged: vec![] };
    assert!(some.has_changes());
}

#[test]
fn backend_figures() {
    let backends = vec![
        ("127.0.0.1:3001".to_string(), true, 10u64),
        ("127.0.0.1:3002".to_string(), false, 0u64),
        ("127.0.0.1:3003".to_string(), true, 5u64),
    ];
    assert_eq!(backend_counts(&backends), (3, 2));
    assert_eq!(backend_counts(&vec![]), (0, 0));
}
