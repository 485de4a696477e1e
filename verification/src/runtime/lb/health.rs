//! Health check configuration and the bookkeeping of probe results.
//!
//! Probing a backend (an HTTP GET or a TCP connect) is I/O and happens
//! outside this module; each round's results are applied here.

use crate::manifest::LbConfig;
use crate::runtime::lb::backend::{backend_url, wrap_inc, Backend, StatsView};
use crate::runtime::lb::proxy::build_http_client;
use crate::text::push_str;
use crate::text::{lowercase_of, str_eq, str_to_lowercase};
use crate::time::{duration_from_millis, duration_from_secs, millis_duration, secs_duration};
use std::time::Duration;
use vstd::prelude::*;

verus! {

/// Type of health check to perform.
#[derive(Debug, Clone, PartialEq, Eq)]
pub enum HealthCheckType {
    /// HTTP health check - sends GET request to specified path.
    Http {
        /// Path to check (e.g., "/health").
        path: String,
    },
    /// TCP health check - just verifies the port is accepting connections.
    Tcp,
}

impl Default for HealthCheckType {
    fn default() -> (t: Self)
        ensures
            t matches HealthCheckType::Http { path } && path@ == "/health"@,
    {
        HealthCheckType::Http { path: "/health".to_string() }
    }
}

/// Configuration for health checks.
#[derive(Debug, Clone)]
pub struct HealthCheckConfig {
    /// Interval between health checks.
    pub interval: Duration,
    /// Timeout for each health check request.
    pub timeout: Duration,
    /// Type of health check to perform.
    pub check_type: HealthCheckType,
    /// Number of consecutive failures before marking unhealthy.
    pub unhealthy_threshold: u32,
    /// Number of consecutive successes before marking healthy.
    pub healthy_threshold: u32,
}

/// The default settings: every 5 s, 2000 ms timeout, thresholds 3 and 2.
pub open spec fn default_settings(c: HealthCheckConfig) -> bool {
    &&& c.interval == secs_duration(5)
    &&& c.timeout == millis_duration(2000)
    &&& c.unhealthy_threshold == 3
    &&& c.healthy_threshold == 2
}

/// Whether `c` checks over HTTP at `path`.
pub open spec fn is_http_check_of(c: HealthCheckConfig, path: Seq<char>) -> bool {
    c.check_type matches HealthCheckType::Http { path: p } && p@ == path
}

/// The health checks a manifest's `[lb]` section asks for: TCP when its
/// kind is `tcp` in any case, HTTP of its path otherwise; interval and
/// timeout from milliseconds; its thresholds.
pub open spec fn reads_lb_config(c: HealthCheckConfig, lb: LbConfig) -> bool {
    &&& lowercase_of(lb.health_check_type@) == "tcp"@ ==> c.check_type == HealthCheckType::Tcp
    &&& lowercase_of(lb.health_check_type@) != "tcp"@ ==> is_http_check_of(c, lb.health_check_path@)
    &&& c.interval == millis_duration(lb.health_check_interval_ms)
    &&& c.timeout == millis_duration(lb.health_check_timeout_ms)
    &&& c.unhealthy_threshold == lb.unhealthy_threshold
    &&& c.healthy_threshold == lb.healthy_threshold
}

impl Default for HealthCheckConfig {
    fn default() -> (c: Self)
        ensures
            default_settings(c),
            c.check_type matches HealthCheckType::Http { path } && path@ == "/health"@,
    {
        HealthCheckConfig {
            interval: duration_from_secs(5),
            timeout: duration_from_millis(2000),
            check_type: HealthCheckType::default(),
            unhealthy_threshold: 3,
            healthy_threshold: 2,
        }
    }
}

impl HealthCheckConfig {
    /// The path probed by HTTP checks; empty for TCP checks.
    pub open spec fn path_spec(&self) -> Seq<char> {
        match self.check_type {
            HealthCheckType::Http { path } => path@,
            HealthCheckType::Tcp => Seq::empty(),
        }
    }

    /// HTTP checks of `path`, other settings at their defaults.
    pub fn http(path: &str) -> (c: Self)
        ensures
            default_settings(c),
            c.check_type matches HealthCheckType::Http { path: p } && p@ == path@,
    {
        HealthCheckConfig {
            check_type: HealthCheckType::Http { path: path.to_string() },
            ..Default::default()
        }
    }

    /// TCP checks, other settings at their defaults.
    pub fn tcp() -> (c: Self)
        ensures
            default_settings(c),
            c.check_type == HealthCheckType::Tcp,
    {
        HealthCheckConfig { check_type: HealthCheckType::Tcp, ..Default::default() }
    }

    /// The health checks a manifest's `[lb]` section asks for: TCP when its
    /// kind is `tcp` in any case, HTTP of its path otherwise; interval and
    /// timeout from milliseconds; its thresholds.
    pub fn from_lb_config(lb: &LbConfig) -> (c: Self)
        ensures
            reads_lb_config(c, *lb),
    {
        let kind = str_to_lowercase(lb.health_check_type.as_str());
        let check_type = if str_eq(kind.as_str(), "tcp") {
            HealthCheckType::Tcp
        } else {
            HealthCheckType::Http { path: lb.health_check_path.as_str().to_string() }
        };
        HealthCheckConfig {
            interval: duration_from_millis(lb.health_check_interval_ms),
            timeout: duration_from_millis(lb.health_check_timeout_ms),
            check_type,
            unhealthy_threshold: lb.unhealthy_threshold,
            healthy_threshold: lb.healthy_threshold,
        }
    }

    /// The path for HTTP health checks; empty for TCP checks.
    pub fn path(&self) -> (p: &str)
        ensures
            p@ == self.path_spec(),
    {
        proof {
            reveal_strlit("");
        }
        match &self.check_type {
            HealthCheckType::Http { path } => path.as_str(),
            HealthCheckType::Tcp => "",
        }
    }
}

/// The counters of a backend after one probe with result `passed`.
pub open spec fn probed(s: StatsView, passed: bool) -> StatsView {
    if passed {
        StatsView { healthy: true, failures: 0, successes: wrap_inc(s.successes), checked: true, ..s }
    } else {
        StatsView { healthy: false, successes: 0, failures: wrap_inc(s.failures), checked: true, ..s }
    }
}

/// Applies one round of probe results: backend `i` is marked healthy when
/// `results[i]` holds and unhealthy otherwise; backends beyond the results
/// are left alone.
pub fn apply_probe_results(backends: &mut Vec<Backend>, results: &Vec<bool>)
    ensures
        final(backends)@.len() == old(backends)@.len(),
        forall|i: int|
            0 <= i < old(backends)@.len() ==> {
                let (a, b) = (#[trigger] old(backends)@[i], final(backends)@[i]);
                if i < results@.len() {
                    a.same_but_stats(b, probed(a.stats(), results@[i]))
                } else {
                    b == a
                }
            },
{
    let ghost before = backends@;
    let mut i: usize = 0;
    while i < backends.len() && i < results.len()
        invariant
            0 <= i <= backends@.len(),
            i <= results@.len(),
            backends@.len() == before.len(),
            forall|j: int| i <= j < before.len() ==> backends@[j] == before[j],
            forall|j: int|
                0 <= j < i ==> #[trigger] before[j].same_but_stats(
                    backends@[j],
                    probed(before[j].stats(), results@[j]),
                ),
        decreases before.len() - i,
    {
        let ghost prev = backends@;
        if results[i] {
            backends[i].mark_healthy();
        } else {
            backends[i].mark_unhealthy();
        }
        assert(backends@ =~= prev.update(i as int, backends@[i as int]));
        i = i + 1;
    }
}

/// `reqwest::Client::builder()` with the total request timeout set and at
/// most `max_idle` idle connections kept per host. Only configures; nothing
/// is stated of the value.
#[verifier::external_body]
fn probe_client_builder(timeout: Duration, max_idle: usize) -> reqwest::ClientBuilder {
    reqwest::Client::builder().timeout(timeout).pool_max_idle_per_host(max_idle)
}

/// Idle connections a health-check client keeps per host.
pub const PROBE_MAX_IDLE_PER_HOST: usize = 1;

/// The health checks of one configuration, with the HTTP client that HTTP
/// checks use. Sending the probes is I/O that happens outside; the results
/// are applied with `apply_probe_results`.
pub struct HealthCheck {
    config: HealthCheckConfig,
    client: Option<reqwest::Client>,
}

impl HealthCheck {
    /// The configuration.
    pub closed spec fn config_spec(&self) -> HealthCheckConfig {
        self.config
    }

    /// Whether an HTTP client is held.
    pub closed spec fn has_client_spec(&self) -> bool {
        self.client is Some
    }

    /// Sets up health checks of `config`: HTTP checks get a client with the
    /// check timeout, TCP checks none. `None` when that client cannot be
    /// created (no TLS backend or resolver configuration on the machine).
    pub fn new(config: HealthCheckConfig) -> (r: Option<HealthCheck>)
        ensures
            config.check_type is Tcp ==> r is Some,
            r matches Some(h) ==> h.config_spec() == config && (h.has_client_spec()
                <==> config.check_type is Http),
    {
        let client = match &config.check_type {
            HealthCheckType::Http { .. } => {
                match build_http_client(probe_client_builder(config.timeout, PROBE_MAX_IDLE_PER_HOST)) {
                    Some(c) => Some(c),
                    None => {
                        return None;
                    },
                }
            },
            HealthCheckType::Tcp => None,
        };
        Some(HealthCheck { config, client })
    }

    /// Whether an HTTP client is held (exactly for HTTP checks).
    pub fn has_client(&self) -> (b: bool)
        ensures
            b == self.has_client_spec(),
    {
        self.client.is_some()
    }

    /// The configuration.
    pub fn config(&self) -> (c: &HealthCheckConfig)
        ensures
            *c == self.config_spec(),
    {
        &self.config
    }

    /// The HTTP client, for HTTP checks.
    pub fn client(&self) -> (c: Option<&reqwest::Client>)
        ensures
            c is Some == self.has_client_spec(),
    {
        match &self.client {
            Some(c) => Some(c),
            None => None,
        }
    }

    /// The URL an HTTP check probes on the backend at `address`; `None`
    /// for TCP checks, which connect to the address itself.
    pub fn probe_url(&self, address: &str) -> (u: Option<String>)
        ensures
            match self.config_spec().check_type {
                HealthCheckType::Http { path } => u matches Some(x) && x@ == backend_url(
                    address@,
                    path@,
                ),
                HealthCheckType::Tcp => u is None,
            },
    {
        match &self.config.check_type {
            HealthCheckType::Http { path } => {
                let mut u = String::new();
                push_str(&mut u, "http://");
                push_str(&mut u, address);
                push_str(&mut u, path.as_str());
                Some(u)
            },
            HealthCheckType::Tcp => None,
        }
    }
}

} // verus!
