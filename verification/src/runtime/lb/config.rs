//! Load balancer settings as a plain record, and their reading from the
//! manifest's `[lb]` section.

use crate::manifest::LbConfig;
use crate::runtime::lb::health::{default_settings, is_http_check_of, reads_lb_config, HealthCheckConfig};
use crate::runtime::lb::server::{DEFAULT_LISTEN_ADDR, LoadBalancerBuilder};
use crate::time::{duration_from_secs, secs_duration};
use std::time::Duration;
use vstd::prelude::*;

verus! {

broadcast use vstd::string::group_string_axioms;

/// Configuration of the load balancer.
#[derive(Debug, Clone)]
pub struct LoadBalancerConfig {
    /// Address to listen on.
    pub listen_addr: String,
    /// Backend addresses.
    pub backends: Vec<String>,
    /// Health check configuration.
    pub health_check: HealthCheckConfig,
    /// Request timeout.
    pub request_timeout: Duration,
    /// Maximum concurrent requests per backend.
    pub max_connections_per_backend: usize,
    /// Pool idle timeout in seconds.
    pub pool_idle_timeout_secs: u64,
    /// TCP keepalive interval in seconds.
    pub tcp_keepalive_secs: u64,
    /// Use HTTP/2 only (with prior knowledge) for backend connections.
    pub http2_only: bool,
}

impl Default for LoadBalancerConfig {
    /// Listen on `0.0.0.0:3000`, no backends, default health checks, 30 s
    /// requests, 100 connections per backend, 90 s pool idle timeout, 60 s
    /// keepalive, HTTP/1 allowed.
    fn default() -> (c: Self)
        ensures
            c.listen_addr@ == DEFAULT_LISTEN_ADDR@,
            c.backends@.len() == 0,
            default_settings(c.health_check),
            is_http_check_of(c.health_check, "/health"@),
            c.request_timeout == secs_duration(30),
            c.max_connections_per_backend == 100,
            c.pool_idle_timeout_secs == 90,
            c.tcp_keepalive_secs == 60,
            !c.http2_only,
    {
        LoadBalancerConfig {
            listen_addr: DEFAULT_LISTEN_ADDR.to_string(),
            backends: Vec::new(),
            health_check: HealthCheckConfig::default(),
            request_timeout: duration_from_secs(30),
            max_connections_per_backend: 100,
            pool_idle_timeout_secs: 90,
            tcp_keepalive_secs: 60,
            http2_only: false,
        }
    }
}

impl LoadBalancerConfig {
    /// The configuration a manifest's `[lb]` section gives, listening on
    /// `listen_addr` with these backends: health checks as
    /// `HealthCheckConfig::from_lb_config` reads them, the request timeout
    /// in seconds, and the pool, keepalive and HTTP/2 settings as written.
    pub fn from_manifest(lb_config: &LbConfig, listen_addr: &str, backends: Vec<String>) -> (c: Self)
        ensures
            c.listen_addr@ == listen_addr@,
            c.backends == backends,
            reads_lb_config(c.health_check, *lb_config),
            c.request_timeout == secs_duration(lb_config.request_timeout_secs),
            c.max_connections_per_backend == lb_config.max_connections_per_backend,
            c.pool_idle_timeout_secs == lb_config.pool_idle_timeout_secs,
            c.tcp_keepalive_secs == lb_config.tcp_keepalive_secs,
            c.http2_only == lb_config.http2_only,
    {
        LoadBalancerConfig {
            listen_addr: listen_addr.to_string(),
            backends,
            health_check: HealthCheckConfig::from_lb_config(lb_config),
            request_timeout: duration_from_secs(lb_config.request_timeout_secs),
            max_connections_per_backend: lb_config.max_connections_per_backend,
            pool_idle_timeout_secs: lb_config.pool_idle_timeout_secs,
            tcp_keepalive_secs: lb_config.tcp_keepalive_secs,
            http2_only: lb_config.http2_only,
        }
    }

    /// A load balancer builder with these settings: the listen address, the
    /// health checks, the timeouts (pool and keepalive in seconds), the
    /// connection limit, HTTP/2 mode, and the backends in order.
    pub fn into_builder(self) -> (b: LoadBalancerBuilder)
        ensures
            b.addr_spec() == self.listen_addr@,
            b.backends_spec() == crate::runtime::lb::server::addresses_view(self.backends@),
            b.settings_spec().health_check == Some(self.health_check),
            b.settings_spec().request_timeout == self.request_timeout,
            b.settings_spec().max_connections_per_backend == self.max_connections_per_backend,
            b.settings_spec().pool_idle_timeout == secs_duration(self.pool_idle_timeout_secs),
            b.settings_spec().tcp_keepalive == secs_duration(self.tcp_keepalive_secs),
            b.settings_spec().http2_only == self.http2_only,
            b.settings_spec().strategy == crate::runtime::lb::selection::LoadBalanceStrategy::RoundRobin,
    {
        let LoadBalancerConfig {
            listen_addr,
            backends,
            health_check,
            request_timeout,
            max_connections_per_backend,
            pool_idle_timeout_secs,
            tcp_keepalive_secs,
            http2_only,
        } = self;
        let mut b = LoadBalancerBuilder::new().listen(listen_addr.as_str()).health_check(
            Some(health_check),
        ).request_timeout(request_timeout).max_connections_per_backend(
            max_connections_per_backend,
        ).pool_idle_timeout(duration_from_secs(pool_idle_timeout_secs)).tcp_keepalive(
            duration_from_secs(tcp_keepalive_secs),
        ).http2_only(http2_only);
        let ghost start = b;
        let mut i: usize = 0;
        while i < backends.len()
            invariant
                0 <= i <= backends@.len(),
                b.addr_spec() == start.addr_spec(),
                b.settings_spec() == start.settings_spec(),
                start.backends_spec().len() == 0,
                b.backends_spec() == crate::runtime::lb::server::addresses_view(backends@.take(i as int)),
            decreases backends@.len() - i,
        {
            b = b.backend(backends[i].as_str());
            i = i + 1;
            assert(crate::runtime::lb::server::addresses_view(backends@.take(i as int))
                =~= crate::runtime::lb::server::addresses_view(backends@.take(i - 1)).push(backends@[i - 1]@));
        }
        assert(backends@.take(backends@.len() as int) =~= backends@);
        b
    }
}

} // verus!
