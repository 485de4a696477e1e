//! Backends of the load balancer and their health bookkeeping.
//!
//! A backend is either a network server reached over HTTP or a runtime
//! embedded in the process. Both keep the same state: whether health checks
//! pass, consecutive check results, request counters, the last observed
//! latency and an optional circuit breaker. Sending requests and health
//! probes is I/O and lies outside this module; the results are reported back
//! through `record_*`, `mark_*` and `record_latency`.

use crate::runtime::lb::circuit_breaker::{
    BreakerView, CircuitBreaker, CircuitBreakerConfig, CircuitBreakerState,
};
use crate::runtime::request::headers_view;
use crate::text::{lowercase_of, push_str, str_eq, str_to_lowercase};
use crate::time::instant_now;
use std::time::Instant;
use vstd::prelude::*;

verus! {

broadcast use vstd::string::group_string_axioms;

/// Default maximum concurrent connections per backend.
pub const DEFAULT_MAX_CONNECTIONS: u32 = 100;

/// `x + 1`, wrapping to 0 past `u64::MAX` as the counters do.
pub open spec fn wrap_inc(x: u64) -> u64 {
    if x == u64::MAX { 0 } else { (x + 1) as u64 }
}

/// `x - 1`, wrapping to `u64::MAX` below 0 as the counters do.
pub open spec fn wrap_dec(x: u64) -> u64 {
    if x == 0 { u64::MAX } else { (x - 1) as u64 }
}

fn inc(x: u64) -> (r: u64)
    ensures
        r == wrap_inc(x),
{
    if x == u64::MAX { 0 } else { x + 1 }
}

fn dec(x: u64) -> (r: u64)
    ensures
        r == wrap_dec(x),
{
    if x == 0 { u64::MAX } else { x - 1 }
}

/// Type of backend.
#[derive(Debug, Clone, Copy, PartialEq, Eq, Structural)]
pub enum BackendType {
    /// HTTP network backend.
    Http,
    /// Embedded runtime backend.
    Runtime,
}

impl BackendType {
    /// The lowercase name of the backend type.
    pub open spec fn name(self) -> Seq<char> {
        match self {
            BackendType::Http => "http"@,
            BackendType::Runtime => "runtime"@,
        }
    }

    /// The lowercase name: `http` or `runtime`.
    pub fn to_string(&self) -> (s: String)
        ensures
            s@ == self.name(),
    {
        match self {
            BackendType::Http => "http".to_string(),
            BackendType::Runtime => "runtime".to_string(),
        }
    }
}

/// State of a backend server.
#[derive(Debug, Clone, Copy, PartialEq, Eq, Structural)]
pub enum BackendState {
    /// Backend is healthy and accepting requests.
    Healthy,
    /// Backend is unhealthy and should not receive requests.
    Unhealthy,
    /// Backend health is unknown (initial state).
    Unknown,
    /// Backend is being drained (no new requests, completing existing ones).
    Draining,
}

impl BackendState {
    /// The lowercase name of the state.
    pub open spec fn name(self) -> Seq<char> {
        match self {
            BackendState::Healthy => "healthy"@,
            BackendState::Unhealthy => "unhealthy"@,
            BackendState::Unknown => "unknown"@,
            BackendState::Draining => "draining"@,
        }
    }

    /// The lowercase name of the state.
    pub fn to_string(&self) -> (s: String)
        ensures
            s@ == self.name(),
    {
        match self {
            BackendState::Healthy => "healthy".to_string(),
            BackendState::Unhealthy => "unhealthy".to_string(),
            BackendState::Unknown => "unknown".to_string(),
            BackendState::Draining => "draining".to_string(),
        }
    }
}

/// Health status for a backend.
#[derive(Debug, Clone)]
pub struct BackendHealth {
    /// Backend identifier.
    pub backend_id: String,
    /// Whether the backend is healthy.
    pub healthy: bool,
    /// Last observed latency in milliseconds.
    pub latency_ms: Option<u64>,
    /// When the last health check was performed.
    pub last_check: Option<Instant>,
    /// Number of active requests.
    pub active_requests: u64,
    /// Total requests handled.
    pub total_requests: u64,
    /// Backend type.
    pub backend_type: BackendType,
}

/// The counters and flags of a backend, as the contracts see them.
pub struct StatsView {
    pub weight: u32,
    pub max_connections: u32,
    pub healthy: bool,
    pub failures: u64,
    pub successes: u64,
    pub total: u64,
    pub active: u64,
    pub checked: bool,
    pub latency_ms: u64,
}

/// The state that HTTP and runtime backends share.
#[derive(Debug, Clone)]
struct BackendStats {
    weight: u32,
    max_connections: u32,
    healthy: bool,
    failure_count: u64,
    success_count: u64,
    total_requests: u64,
    active_requests: u64,
    last_check: Option<Instant>,
    last_latency_ms: u64,
    circuit_breaker: Option<CircuitBreaker>,
}

/// Breakers `a` and `b` agree on presence, and where present `b` is `a`
/// after the clock was read and `outcome` happened.
pub open spec fn breaker_step(
    a: Option<CircuitBreaker>,
    b: Option<CircuitBreaker>,
    outcome: spec_fn(CircuitBreaker, CircuitBreaker) -> bool,
) -> bool {
    match a {
        Some(x) => b is Some && outcome(x, b->0),
        None => b is None,
    }
}

/// A breaker observed by the clock.
pub open spec fn breaker_observed(x: CircuitBreaker, y: CircuitBreaker) -> bool {
    x.observed_by(y)
}

/// A breaker that recorded a success.
pub open spec fn breaker_success(x: CircuitBreaker, y: CircuitBreaker) -> bool {
    x.success_recorded(y)
}

/// A breaker that recorded a failure.
pub open spec fn breaker_failure(x: CircuitBreaker, y: CircuitBreaker) -> bool {
    x.failure_recorded(y)
}

/// Availability: healthy, and no breaker or a breaker that is not open.
pub open spec fn available_spec(healthy: bool, breaker: Option<CircuitBreaker>) -> bool {
    healthy && match breaker {
        Some(cb) => cb.view().state != CircuitBreakerState::Open,
        None => true,
    }
}

impl BackendStats {
    closed spec fn view(&self) -> StatsView {
        StatsView {
            weight: self.weight,
            max_connections: self.max_connections,
            healthy: self.healthy,
            failures: self.failure_count,
            successes: self.success_count,
            total: self.total_requests,
            active: self.active_requests,
            checked: self.last_check.is_some(),
            latency_ms: self.last_latency_ms,
        }
    }

    closed spec fn wf(&self) -> bool {
        match self.circuit_breaker {
            Some(cb) => cb.wf(),
            None => true,
        }
    }

    fn new(weight: u32, max_connections: u32, circuit_breaker: Option<CircuitBreaker>) -> (s: Self)
        requires
            match circuit_breaker {
                Some(cb) => cb.wf(),
                None => true,
            },
        ensures
            s.wf(),
            s.circuit_breaker == circuit_breaker,
            s.view() == (StatsView {
                weight: if weight == 0 { 1 } else { weight },
                max_connections: if max_connections == 0 { 1 } else { max_connections },
                healthy: true,
                failures: 0,
                successes: 0,
                total: 0,
                active: 0,
                checked: false,
                latency_ms: 0,
            }),
    {
        BackendStats {
            weight: if weight == 0 { 1 } else { weight },
            max_connections: if max_connections == 0 { 1 } else { max_connections },
            healthy: true,
            failure_count: 0,
            success_count: 0,
            total_requests: 0,
            active_requests: 0,
            last_check: None,
            last_latency_ms: 0,
            circuit_breaker,
        }
    }

    fn is_available(&mut self) -> (b: bool)
        requires
            old(self).wf(),
        ensures
            final(self).wf(),
            final(self).view() == old(self).view(),
            !old(self).healthy ==> final(self).circuit_breaker == old(self).circuit_breaker,
            old(self).healthy ==> breaker_step(
                old(self).circuit_breaker,
                final(self).circuit_breaker,
                |x: CircuitBreaker, y: CircuitBreaker| breaker_observed(x, y),
            ),
            b == available_spec(old(self).healthy, final(self).circuit_breaker),
    {
        if !self.healthy {
            return false;
        }
        match &mut self.circuit_breaker {
            Some(cb) => cb.is_available(),
            None => true,
        }
    }

    fn mark_healthy(&mut self)
        ensures
            final(self).circuit_breaker == old(self).circuit_breaker,
            final(self).view() == (StatsView {
                healthy: true,
                failures: 0,
                successes: wrap_inc(old(self).view().successes),
                checked: true,
                ..old(self).view()
            }),
    {
        self.healthy = true;
        self.failure_count = 0;
        self.success_count = inc(self.success_count);
        self.last_check = Some(instant_now());
    }

    fn mark_unhealthy(&mut self)
        ensures
            final(self).circuit_breaker == old(self).circuit_breaker,
            final(self).view() == (StatsView {
                healthy: false,
                successes: 0,
                failures: wrap_inc(old(self).view().failures),
                checked: true,
                ..old(self).view()
            }),
    {
        self.healthy = false;
        self.success_count = 0;
        self.failure_count = inc(self.failure_count);
        self.last_check = Some(instant_now());
    }

    fn record_success(&mut self)
        requires
            old(self).wf(),
        ensures
            final(self).wf(),
            final(self).view() == (StatsView { total: wrap_inc(old(self).view().total), ..old(self).view() }),
            breaker_step(
                old(self).circuit_breaker,
                final(self).circuit_breaker,
                |x: CircuitBreaker, y: CircuitBreaker| breaker_success(x, y),
            ),
    {
        self.total_requests = inc(self.total_requests);
        match &mut self.circuit_breaker {
            Some(cb) => cb.record_success(),
            None => {},
        }
    }

    fn record_failure(&mut self)
        requires
            old(self).wf(),
        ensures
            final(self).wf(),
            final(self).view() == (StatsView { total: wrap_inc(old(self).view().total), ..old(self).view() }),
            breaker_step(
                old(self).circuit_breaker,
                final(self).circuit_breaker,
                |x: CircuitBreaker, y: CircuitBreaker| breaker_failure(x, y),
            ),
    {
        self.total_requests = inc(self.total_requests);
        match &mut self.circuit_breaker {
            Some(cb) => cb.record_failure(),
            None => {},
        }
    }

    fn health(&self, backend_id: String, backend_type: BackendType) -> (h: BackendHealth)
        ensures
            h.backend_id == backend_id,
            h.healthy == self.healthy,
            h.latency_ms == (if self.last_latency_ms > 0 { Some(self.last_latency_ms) } else { None }),
            h.last_check == self.last_check,
            h.active_requests == self.active_requests,
            h.total_requests == self.total_requests,
            h.backend_type == backend_type,
    {
        BackendHealth {
            backend_id,
            healthy: self.healthy,
            latency_ms: if self.last_latency_ms > 0 { Some(self.last_latency_ms) } else { None },
            last_check: self.last_check,
            active_requests: self.active_requests,
            total_requests: self.total_requests,
            backend_type,
        }
    }

    fn has_capacity(&self) -> (b: bool)
        ensures
            b == (self.active_requests < self.max_connections as u64),
    {
        self.active_requests < self.max_connections as u64
    }

    fn start_request(&mut self)
        ensures
            final(self).circuit_breaker == old(self).circuit_breaker,
            final(self).view() == (StatsView { active: wrap_inc(old(self).view().active), ..old(self).view() }),
    {
        self.active_requests = inc(self.active_requests);
    }

    fn end_request(&mut self)
        ensures
            final(self).circuit_breaker == old(self).circuit_breaker,
            final(self).view() == (StatsView { active: wrap_dec(old(self).view().active), ..old(self).view() }),
    {
        self.active_requests = dec(self.active_requests);
    }

    fn record_latency(&mut self, latency_ms: u64)
        ensures
            final(self).circuit_breaker == old(self).circuit_breaker,
            final(self).view() == (StatsView { latency_ms, ..old(self).view() }),
    {
        self.last_latency_ms = latency_ms;
    }
}


/// The URL of `path` on the server at `address`: `http://` then both.
pub open spec fn backend_url(address: Seq<char>, path: Seq<char>) -> Seq<char> {
    "http://"@ + address + path
}

/// Hop-by-hop headers (compared in lowercase), which a proxy must not forward.
pub open spec fn is_hop_by_hop_name(lower: Seq<char>) -> bool {
    lower == "connection"@ || lower == "keep-alive"@ || lower == "proxy-authenticate"@
        || lower == "proxy-authorization"@ || lower == "te"@ || lower == "trailers"@
        || lower == "transfer-encoding"@ || lower == "upgrade"@
}

/// Whether the header `name` is hop-by-hop, ignoring case.
pub open spec fn is_hop_by_hop_spec(name: Seq<char>) -> bool {
    is_hop_by_hop_name(lowercase_of(name))
}

/// Checks whether a header is a hop-by-hop header that must not be forwarded.
pub fn is_hop_by_hop_header(name: &str) -> (b: bool)
    ensures
        b == is_hop_by_hop_spec(name@),
{
    proof {
        reveal_strlit("connection");
        reveal_strlit("keep-alive");
        reveal_strlit("proxy-authenticate");
        reveal_strlit("proxy-authorization");
        reveal_strlit("te");
        reveal_strlit("trailers");
        reveal_strlit("transfer-encoding");
        reveal_strlit("upgrade");
    }
    let lower = str_to_lowercase(name);
    let l = lower.as_str();
    str_eq(l, "connection") || str_eq(l, "keep-alive") || str_eq(l, "proxy-authenticate")
        || str_eq(l, "proxy-authorization") || str_eq(l, "te") || str_eq(l, "trailers")
        || str_eq(l, "transfer-encoding") || str_eq(l, "upgrade")
}

/// The headers that may be forwarded: all but the hop-by-hop ones, in order.
pub open spec fn forwardable(hs: Seq<(Seq<char>, Seq<char>)>) -> Seq<(Seq<char>, Seq<char>)> {
    hs.filter(|p: (Seq<char>, Seq<char>)| !is_hop_by_hop_spec(p.0))
}

/// Copies the headers that a proxy forwards, dropping hop-by-hop ones.
pub fn forward_headers(headers: &Vec<(String, String)>) -> (out: Vec<(String, String)>)
    ensures
        headers_view(out@) == forwardable(headers_view(headers@)),
{
    let mut out: Vec<(String, String)> = Vec::new();
    let mut i: usize = 0;
    while i < headers.len()
        invariant
            0 <= i <= headers@.len(),
            headers_view(out@) == forwardable(headers_view(headers@).take(i as int)),
        decreases headers@.len() - i,
    {
        let ghost hv = headers_view(headers@);
        assert(hv.take(i + 1).drop_last() =~= hv.take(i as int));
        assert(hv.take(i + 1).last() == (headers@[i as int].0@, headers@[i as int].1@));
        reveal(Seq::filter);
        let name = headers[i].0.as_str();
        if !is_hop_by_hop_header(name) {
            let ghost prev = out@;
            out.push((headers[i].0.clone(), headers[i].1.clone()));
            assert(headers_view(out@) =~= headers_view(prev).push((headers@[i as int].0@, headers@[i as int].1@)));
        }
        i = i + 1;
    }
    assert(headers_view(headers@).take(headers@.len() as int) =~= headers_view(headers@));
    out
}


/// The counters of a new backend with the given options.
pub open spec fn fresh_stats(weight: u32, max_connections: u32) -> StatsView {
    StatsView {
        weight: if weight == 0 { 1 } else { weight },
        max_connections: if max_connections == 0 { 1 } else { max_connections },
        healthy: true,
        failures: 0,
        successes: 0,
        total: 0,
        active: 0,
        checked: false,
        latency_ms: 0,
    }
}

/// HTTP backend that forwards requests over the network.
#[derive(Debug, Clone)]
pub struct HttpBackend {
    address: String,
    last_success: Option<Instant>,
    stats: BackendStats,
}

impl HttpBackend {
    /// The address, e.g. `127.0.0.1:3001`.
    pub closed spec fn id_spec(&self) -> Seq<char> {
        self.address@
    }

    /// Creates a backend with weight 1 and the default connection limit.
    pub fn new(address: String) -> (b: Self)
        ensures
            b.wf(),
            b.id_spec() == address@,
            b.breaker() is None,
            b.stats() == fresh_stats(1, DEFAULT_MAX_CONNECTIONS),
    {
        Self::with_options(address, 1, DEFAULT_MAX_CONNECTIONS)
    }

    /// Creates a backend; weight and connection limit are at least 1.
    pub fn with_options(address: String, weight: u32, max_connections: u32) -> (b: Self)
        ensures
            b.wf(),
            b.id_spec() == address@,
            b.breaker() is None,
            b.stats() == fresh_stats(weight, max_connections),
    {
        HttpBackend { address, last_success: None, stats: BackendStats::new(weight, max_connections, None) }
    }

    /// Creates a backend guarded by a circuit breaker.
    pub fn with_circuit_breaker(address: String, config: CircuitBreakerConfig) -> (b: Self)
        ensures
            b.wf(),
            b.id_spec() == address@,
            b.breaker() matches Some(cb) && cb.config_spec() == config && cb.view() == (BreakerView {
                state: CircuitBreakerState::Closed,
                failures: 0,
                successes: 0,
            }),
            b.stats() == fresh_stats(1, DEFAULT_MAX_CONNECTIONS),
    {
        let cb = CircuitBreaker::new(config);
        HttpBackend {
            address,
            last_success: None,
            stats: BackendStats::new(1, DEFAULT_MAX_CONNECTIONS, Some(cb)),
        }
    }

    /// The backend address.
    pub fn address(&self) -> (a: &str)
        ensures
            a@ == self.id_spec(),
    {
        self.address.as_str()
    }

    /// The full URL for a path on this backend.
    pub fn url(&self, path: &str) -> (u: String)
        ensures
            u@ == backend_url(self.id_spec(), path@),
    {
        let mut u = String::new();
        push_str(&mut u, "http://");
        push_str(&mut u, self.address.as_str());
        push_str(&mut u, path);
        u
    }

    /// Unknown before any health check, then healthy or unhealthy.
    pub fn state(&self) -> (s: BackendState)
        ensures
            s == (if !self.stats().checked {
                BackendState::Unknown
            } else if self.stats().healthy {
                BackendState::Healthy
            } else {
                BackendState::Unhealthy
            }),
    {
        if self.stats.last_check.is_none() {
            BackendState::Unknown
        } else if self.stats.healthy {
            BackendState::Healthy
        } else {
            BackendState::Unhealthy
        }
    }

    /// The total number of requests handled.
    pub fn total_requests(&self) -> (n: u64)
        ensures
            n == self.stats().total,
    {
        self.stats.total_requests
    }

    /// The counters and flags.
    pub closed spec fn stats(&self) -> StatsView {
        self.stats.view()
    }

    /// The circuit breaker, if any.
    pub closed spec fn breaker(&self) -> Option<CircuitBreaker> {
        self.stats.circuit_breaker
    }

    /// The breaker, if any, keeps its invariant.
    pub closed spec fn wf(&self) -> bool {
        self.stats.wf()
    }

    /// Whether health checks currently pass.
    pub fn is_healthy(&self) -> (b: bool)
        ensures
            b == self.stats().healthy,
    {
        self.stats.healthy
    }

    /// Whether requests may be sent: the backend is healthy and its circuit
    /// breaker, if any, is not open once the clock has been read.
    pub fn is_available(&mut self) -> (b: bool)
        requires
            old(self).wf(),
        ensures
            final(self).wf(),
            final(self).stats() == old(self).stats(),
            final(self).id_spec() == old(self).id_spec(),
            !old(self).stats().healthy ==> final(self).breaker() == old(self).breaker(),
            old(self).stats().healthy ==> breaker_step(
                old(self).breaker(),
                final(self).breaker(),
                |x: CircuitBreaker, y: CircuitBreaker| breaker_observed(x, y),
            ),
            b == available_spec(old(self).stats().healthy, final(self).breaker()),
    {
        self.stats.is_available()
    }

    /// Whether fewer requests are active than the connection limit.
    pub fn has_capacity(&self) -> (b: bool)
        ensures
            b == (self.stats().active < self.stats().max_connections as u64),
    {
        self.stats.has_capacity()
    }

    /// Records a passed health check: healthy, no failures, one more success.
    pub fn mark_healthy(&mut self)
        ensures
            final(self).wf() == old(self).wf(),
            final(self).breaker() == old(self).breaker(),
            final(self).id_spec() == old(self).id_spec(),
            final(self).stats() == (StatsView {
                healthy: true,
                failures: 0,
                successes: wrap_inc(old(self).stats().successes),
                checked: true,
                ..old(self).stats()
            }),
    {
        self.stats.mark_healthy();
        self.last_success = Some(instant_now());
    }

    /// Records a failed health check: unhealthy, no successes, one more failure.
    pub fn mark_unhealthy(&mut self)
        ensures
            final(self).wf() == old(self).wf(),
            final(self).breaker() == old(self).breaker(),
            final(self).id_spec() == old(self).id_spec(),
            final(self).stats() == (StatsView {
                healthy: false,
                successes: 0,
                failures: wrap_inc(old(self).stats().failures),
                checked: true,
                ..old(self).stats()
            }),
    {
        self.stats.mark_unhealthy();
    }

    /// Records a successful request: one more request, and a success for the breaker.
    pub fn record_success(&mut self)
        requires
            old(self).wf(),
        ensures
            final(self).wf(),
            final(self).id_spec() == old(self).id_spec(),
            final(self).stats() == (StatsView { total: wrap_inc(old(self).stats().total), ..old(self).stats() }),
            breaker_step(
                old(self).breaker(),
                final(self).breaker(),
                |x: CircuitBreaker, y: CircuitBreaker| breaker_success(x, y),
            ),
    {
        self.stats.record_success();
        self.last_success = Some(instant_now());
    }

    /// Records a failed request: one more request, and a failure for the breaker.
    pub fn record_failure(&mut self)
        requires
            old(self).wf(),
        ensures
            final(self).wf(),
            final(self).id_spec() == old(self).id_spec(),
            final(self).stats() == (StatsView { total: wrap_inc(old(self).stats().total), ..old(self).stats() }),
            breaker_step(
                old(self).breaker(),
                final(self).breaker(),
                |x: CircuitBreaker, y: CircuitBreaker| breaker_failure(x, y),
            ),
    {
        self.stats.record_failure();
    }

    /// Counts one more active request.
    pub fn start_request(&mut self)
        ensures
            final(self).wf() == old(self).wf(),
            final(self).breaker() == old(self).breaker(),
            final(self).id_spec() == old(self).id_spec(),
            final(self).stats() == (StatsView { active: wrap_inc(old(self).stats().active), ..old(self).stats() }),
    {
        self.stats.start_request();
    }

    /// Counts one active request fewer.
    pub fn end_request(&mut self)
        ensures
            final(self).wf() == old(self).wf(),
            final(self).breaker() == old(self).breaker(),
            final(self).id_spec() == old(self).id_spec(),
            final(self).stats() == (StatsView { active: wrap_dec(old(self).stats().active), ..old(self).stats() }),
    {
        self.stats.end_request();
    }

    /// Stores the latency of the last request or probe, in milliseconds.
    pub fn record_latency(&mut self, latency_ms: u64)
        ensures
            final(self).wf() == old(self).wf(),
            final(self).breaker() == old(self).breaker(),
            final(self).id_spec() == old(self).id_spec(),
            final(self).stats() == (StatsView { latency_ms, ..old(self).stats() }),
    {
        self.stats.record_latency(latency_ms);
    }

    /// The number of active requests.
    pub fn active_requests(&self) -> (n: u64)
        ensures
            n == self.stats().active,
    {
        self.stats.active_requests
    }

    /// The consecutive failed health checks.
    pub fn failure_count(&self) -> (n: u64)
        ensures
            n == self.stats().failures,
    {
        self.stats.failure_count
    }

    /// The consecutive passed health checks.
    pub fn success_count(&self) -> (n: u64)
        ensures
            n == self.stats().successes,
    {
        self.stats.success_count
    }

    /// The health summary of this backend.
    pub fn health(&self) -> (h: BackendHealth)
        ensures
            h.backend_id@ == self.id_spec(),
            h.healthy == self.stats().healthy,
            h.latency_ms == (if self.stats().latency_ms > 0 { Some(self.stats().latency_ms) } else { None }),
            h.last_check.is_some() == self.stats().checked,
            h.active_requests == self.stats().active,
            h.total_requests == self.stats().total,
            h.backend_type == BackendType::Http,
    {
        self.stats.health(self.address.clone(), BackendType::Http)
    }
}

/// Embedded runtime backend that handles requests in-process, known by the
/// identifier of its runtime.
#[derive(Debug, Clone)]
pub struct RuntimeBackend {
    id: String,
    stats: BackendStats,
}

impl RuntimeBackend {
    /// The runtime identifier.
    pub closed spec fn id_spec(&self) -> Seq<char> {
        self.id@
    }

    /// Creates a backend with weight 1 and the default connection limit.
    pub fn new(id: String) -> (b: Self)
        ensures
            b.wf(),
            b.id_spec() == id@,
            b.breaker() is None,
            b.stats() == fresh_stats(1, DEFAULT_MAX_CONNECTIONS),
    {
        Self::with_options(id, 1, DEFAULT_MAX_CONNECTIONS)
    }

    /// Creates a backend; weight and connection limit are at least 1.
    pub fn with_options(id: String, weight: u32, max_connections: u32) -> (b: Self)
        ensures
            b.wf(),
            b.id_spec() == id@,
            b.breaker() is None,
            b.stats() == fresh_stats(weight, max_connections),
    {
        RuntimeBackend { id, stats: BackendStats::new(weight, max_connections, None) }
    }

    /// The runtime identifier.
    pub fn id(&self) -> (i: &str)
        ensures
            i@ == self.id_spec(),
    {
        self.id.as_str()
    }

    /// The counters and flags.
    pub closed spec fn stats(&self) -> StatsView {
        self.stats.view()
    }

    /// The circuit breaker, if any.
    pub closed spec fn breaker(&self) -> Option<CircuitBreaker> {
        self.stats.circuit_breaker
    }

    /// The breaker, if any, keeps its invariant.
    pub closed spec fn wf(&self) -> bool {
        self.stats.wf()
    }

    /// Whether health checks currently pass.
    pub fn is_healthy(&self) -> (b: bool)
        ensures
            b == self.stats().healthy,
    {
        self.stats.healthy
    }

    /// Whether requests may be sent: the backend is healthy and its circuit
    /// breaker, if any, is not open once the clock has been read.
    pub fn is_available(&mut self) -> (b: bool)
        requires
            old(self).wf(),
        ensures
            final(self).wf(),
            final(self).stats() == old(self).stats(),
            final(self).id_spec() == old(self).id_spec(),
            !old(self).stats().healthy ==> final(self).breaker() == old(self).breaker(),
            old(self).stats().healthy ==> breaker_step(
                old(self).breaker(),
                final(self).breaker(),
                |x: CircuitBreaker, y: CircuitBreaker| breaker_observed(x, y),
            ),
            b == available_spec(old(self).stats().healthy, final(self).breaker()),
    {
        self.stats.is_available()
    }

    /// Whether fewer requests are active than the connection limit.
    pub fn has_capacity(&self) -> (b: bool)
        ensures
            b == (self.stats().active < self.stats().max_connections as u64),
    {
        self.stats.has_capacity()
    }

    /// Records a passed health check: healthy, no failures, one more success.
    pub fn mark_healthy(&mut self)
        ensures
            final(self).wf() == old(self).wf(),
            final(self).breaker() == old(self).breaker(),
            final(self).id_spec() == old(self).id_spec(),
            final(self).stats() == (StatsView {
                healthy: true,
                failures: 0,
                successes: wrap_inc(old(self).stats().successes),
                checked: true,
                ..old(self).stats()
            }),
    {
        self.stats.mark_healthy();
    }

    /// Records a failed health check: unhealthy, no successes, one more failure.
    pub fn mark_unhealthy(&mut self)
        ensures
            final(self).wf() == old(self).wf(),
            final(self).breaker() == old(self).breaker(),
            final(self).id_spec() == old(self).id_spec(),
            final(self).stats() == (StatsView {
                healthy: false,
                successes: 0,
                failures: wrap_inc(old(self).stats().failures),
                checked: true,
                ..old(self).stats()
            }),
    {
        self.stats.mark_unhealthy();
    }

    /// Records a successful request: one more request, and a success for the breaker.
    pub fn record_success(&mut self)
        requires
            old(self).wf(),
        ensures
            final(self).wf(),
            final(self).id_spec() == old(self).id_spec(),
            final(self).stats() == (StatsView { total: wrap_inc(old(self).stats().total), ..old(self).stats() }),
            breaker_step(
                old(self).breaker(),
                final(self).breaker(),
                |x: CircuitBreaker, y: CircuitBreaker| breaker_success(x, y),
            ),
    {
        self.stats.record_success();
    }

    /// Records a failed request: one more request, and a failure for the breaker.
    pub fn record_failure(&mut self)
        requires
            old(self).wf(),
        ensures
            final(self).wf(),
            final(self).id_spec() == old(self).id_spec(),
            final(self).stats() == (StatsView { total: wrap_inc(old(self).stats().total), ..old(self).stats() }),
            breaker_step(
                old(self).breaker(),
                final(self).breaker(),
                |x: CircuitBreaker, y: CircuitBreaker| breaker_failure(x, y),
            ),
    {
        self.stats.record_failure();
    }

    /// Counts one more active request.
    pub fn start_request(&mut self)
        ensures
            final(self).wf() == old(self).wf(),
            final(self).breaker() == old(self).breaker(),
            final(self).id_spec() == old(self).id_spec(),
            final(self).stats() == (StatsView { active: wrap_inc(old(self).stats().active), ..old(self).stats() }),
    {
        self.stats.start_request();
    }

    /// Counts one active request fewer.
    pub fn end_request(&mut self)
        ensures
            final(self).wf() == old(self).wf(),
            final(self).breaker() == old(self).breaker(),
            final(self).id_spec() == old(self).id_spec(),
            final(self).stats() == (StatsView { active: wrap_dec(old(self).stats().active), ..old(self).stats() }),
    {
        self.stats.end_request();
    }

    /// Stores the latency of the last request or probe, in milliseconds.
    pub fn record_latency(&mut self, latency_ms: u64)
        ensures
            final(self).wf() == old(self).wf(),
            final(self).breaker() == old(self).breaker(),
            final(self).id_spec() == old(self).id_spec(),
            final(self).stats() == (StatsView { latency_ms, ..old(self).stats() }),
    {
        self.stats.record_latency(latency_ms);
    }

    /// The number of active requests.
    pub fn active_requests(&self) -> (n: u64)
        ensures
            n == self.stats().active,
    {
        self.stats.active_requests
    }

    /// The consecutive failed health checks.
    pub fn failure_count(&self) -> (n: u64)
        ensures
            n == self.stats().failures,
    {
        self.stats.failure_count
    }

    /// The consecutive passed health checks.
    pub fn success_count(&self) -> (n: u64)
        ensures
            n == self.stats().successes,
    {
        self.stats.success_count
    }

    /// The health summary of this backend.
    pub fn health(&self) -> (h: BackendHealth)
        ensures
            h.backend_id@ == self.id_spec(),
            h.healthy == self.stats().healthy,
            h.latency_ms == (if self.stats().latency_ms > 0 { Some(self.stats().latency_ms) } else { None }),
            h.last_check.is_some() == self.stats().checked,
            h.active_requests == self.stats().active,
            h.total_requests == self.stats().total,
            h.backend_type == BackendType::Runtime,
    {
        self.stats.health(self.id.clone(), BackendType::Runtime)
    }
}

/// Backend for load balancing: a network server or an embedded runtime.
#[derive(Debug, Clone)]
pub enum Backend {
    /// Network backend - forwards requests over HTTP.
    Http(HttpBackend),
    /// Embedded runtime backend - handles requests in-process.
    Runtime(RuntimeBackend),
}

impl Backend {
    /// The backend's identifier: the address or the runtime id.
    pub open spec fn id_spec(&self) -> Seq<char> {
        match self {
            Backend::Http(b) => b.id_spec(),
            Backend::Runtime(b) => b.id_spec(),
        }
    }

    /// The counters and flags.
    pub open spec fn stats(&self) -> StatsView {
        match self {
            Backend::Http(b) => b.stats(),
            Backend::Runtime(b) => b.stats(),
        }
    }

    /// The circuit breaker, if any.
    pub open spec fn breaker(&self) -> Option<CircuitBreaker> {
        match self {
            Backend::Http(b) => b.breaker(),
            Backend::Runtime(b) => b.breaker(),
        }
    }

    /// The breaker, if any, keeps its invariant.
    pub open spec fn wf(&self) -> bool {
        match self {
            Backend::Http(b) => b.wf(),
            Backend::Runtime(b) => b.wf(),
        }
    }

    /// Whether `after` is `self` with the counters changed to `stats` and
    /// nothing else changed.
    pub open spec fn same_but_stats(&self, after: Self, stats: StatsView) -> bool {
        &&& after.wf() == self.wf()
        &&& after.id_spec() == self.id_spec()
        &&& after.breaker() == self.breaker()
        &&& after.stats() == stats
        &&& (self is Http <==> after is Http)
    }

    /// Creates an HTTP backend from an address.
    pub fn http(address: &str) -> (b: Self)
        ensures
            b is Http,
            b.wf(),
            b.id_spec() == address@,
            b.breaker() is None,
            b.stats() == fresh_stats(1, DEFAULT_MAX_CONNECTIONS),
    {
        Backend::Http(HttpBackend::new(address.to_string()))
    }

    /// Creates an HTTP backend with weight and connection limit (each at least 1).
    pub fn http_with_options(address: &str, weight: u32, max_connections: u32) -> (b: Self)
        ensures
            b is Http,
            b.wf(),
            b.id_spec() == address@,
            b.breaker() is None,
            b.stats() == fresh_stats(weight, max_connections),
    {
        Backend::Http(HttpBackend::with_options(address.to_string(), weight, max_connections))
    }

    /// Creates an HTTP backend guarded by a circuit breaker.
    pub fn http_with_circuit_breaker(address: &str, config: CircuitBreakerConfig) -> (b: Self)
        ensures
            b is Http,
            b.wf(),
            b.id_spec() == address@,
            b.breaker() matches Some(cb) && cb.config_spec() == config && cb.view() == (BreakerView {
                state: CircuitBreakerState::Closed,
                failures: 0,
                successes: 0,
            }),
            b.stats() == fresh_stats(1, DEFAULT_MAX_CONNECTIONS),
    {
        Backend::Http(HttpBackend::with_circuit_breaker(address.to_string(), config))
    }

    /// Creates an embedded runtime backend for the runtime with identifier `id`.
    pub fn runtime(id: &str) -> (b: Self)
        ensures
            b is Runtime,
            b.wf(),
            b.id_spec() == id@,
            b.breaker() is None,
            b.stats() == fresh_stats(1, DEFAULT_MAX_CONNECTIONS),
    {
        Backend::Runtime(RuntimeBackend::new(id.to_string()))
    }

    /// Creates an embedded runtime backend with weight and connection limit.
    pub fn runtime_with_options(id: &str, weight: u32, max_connections: u32) -> (b: Self)
        ensures
            b is Runtime,
            b.wf(),
            b.id_spec() == id@,
            b.breaker() is None,
            b.stats() == fresh_stats(weight, max_connections),
    {
        Backend::Runtime(RuntimeBackend::with_options(id.to_string(), weight, max_connections))
    }

    /// The backend identifier.
    pub fn id(&self) -> (i: &str)
        ensures
            i@ == self.id_spec(),
    {
        match self {
            Backend::Http(b) => b.address(),
            Backend::Runtime(b) => b.id(),
        }
    }

    /// Whether health checks currently pass.
    pub fn is_healthy(&self) -> (b: bool)
        ensures
            b == self.stats().healthy,
    {
        match self {
            Backend::Http(b) => b.is_healthy(),
            Backend::Runtime(b) => b.is_healthy(),
        }
    }

    /// Whether requests may be sent: healthy, and no open circuit breaker.
    pub fn is_available(&mut self) -> (b: bool)
        requires
            old(self).wf(),
        ensures
            final(self).wf(),
            (*old(self) is Http <==> *final(self) is Http),
            final(self).stats() == old(self).stats(),
            final(self).id_spec() == old(self).id_spec(),
            !old(self).stats().healthy ==> final(self).breaker() == old(self).breaker(),
            old(self).stats().healthy ==> breaker_step(
                old(self).breaker(),
                final(self).breaker(),
                |x: CircuitBreaker, y: CircuitBreaker| breaker_observed(x, y),
            ),
            b == available_spec(old(self).stats().healthy, final(self).breaker()),
    {
        match self {
            Backend::Http(b) => b.is_available(),
            Backend::Runtime(b) => b.is_available(),
        }
    }

    /// Whether fewer requests are active than the connection limit.
    pub fn has_capacity(&self) -> (b: bool)
        ensures
            b == (self.stats().active < self.stats().max_connections as u64),
    {
        match self {
            Backend::Http(b) => b.has_capacity(),
            Backend::Runtime(b) => b.has_capacity(),
        }
    }

    /// Records a passed health check.
    pub fn mark_healthy(&mut self)
        ensures
            old(self).same_but_stats(*final(self), StatsView {
                healthy: true,
                failures: 0,
                successes: wrap_inc(old(self).stats().successes),
                checked: true,
                ..old(self).stats()
            }),
    {
        match self {
            Backend::Http(b) => b.mark_healthy(),
            Backend::Runtime(b) => b.mark_healthy(),
        }
    }

    /// Records a failed health check.
    pub fn mark_unhealthy(&mut self)
        ensures
            old(self).same_but_stats(*final(self), StatsView {
                healthy: false,
                successes: 0,
                failures: wrap_inc(old(self).stats().failures),
                checked: true,
                ..old(self).stats()
            }),
    {
        match self {
            Backend::Http(b) => b.mark_unhealthy(),
            Backend::Runtime(b) => b.mark_unhealthy(),
        }
    }

    /// Records a successful request.
    pub fn record_success(&mut self)
        requires
            old(self).wf(),
        ensures
            final(self).wf(),
            (*old(self) is Http <==> *final(self) is Http),
            final(self).id_spec() == old(self).id_spec(),
            final(self).stats() == (StatsView { total: wrap_inc(old(self).stats().total), ..old(self).stats() }),
            breaker_step(
                old(self).breaker(),
                final(self).breaker(),
                |x: CircuitBreaker, y: CircuitBreaker| breaker_success(x, y),
            ),
    {
        match self {
            Backend::Http(b) => b.record_success(),
            Backend::Runtime(b) => b.record_success(),
        }
    }

    /// Records a failed request.
    pub fn record_failure(&mut self)
        requires
            old(self).wf(),
        ensures
            final(self).wf(),
            (*old(self) is Http <==> *final(self) is Http),
            final(self).id_spec() == old(self).id_spec(),
            final(self).stats() == (StatsView { total: wrap_inc(old(self).stats().total), ..old(self).stats() }),
            breaker_step(
                old(self).breaker(),
                final(self).breaker(),
                |x: CircuitBreaker, y: CircuitBreaker| breaker_failure(x, y),
            ),
    {
        match self {
            Backend::Http(b) => b.record_failure(),
            Backend::Runtime(b) => b.record_failure(),
        }
    }

    /// Counts one more active request.
    pub fn start_request(&mut self)
        ensures
            old(self).same_but_stats(*final(self), StatsView { active: wrap_inc(old(self).stats().active), ..old(self).stats() }),
    {
        match self {
            Backend::Http(b) => b.start_request(),
            Backend::Runtime(b) => b.start_request(),
        }
    }

    /// Counts one active request fewer.
    pub fn end_request(&mut self)
        ensures
            old(self).same_but_stats(*final(self), StatsView { active: wrap_dec(old(self).stats().active), ..old(self).stats() }),
    {
        match self {
            Backend::Http(b) => b.end_request(),
            Backend::Runtime(b) => b.end_request(),
        }
    }

    /// Stores the latency of the last request or probe, in milliseconds.
    pub fn record_latency(&mut self, latency_ms: u64)
        ensures
            old(self).same_but_stats(*final(self), StatsView { latency_ms, ..old(self).stats() }),
    {
        match self {
            Backend::Http(b) => b.record_latency(latency_ms),
            Backend::Runtime(b) => b.record_latency(latency_ms),
        }
    }

    /// The number of active requests.
    pub fn active_requests(&self) -> (n: u64)
        ensures
            n == self.stats().active,
    {
        match self {
            Backend::Http(b) => b.active_requests(),
            Backend::Runtime(b) => b.active_requests(),
        }
    }

    /// The consecutive passed health checks.
    pub fn success_count(&self) -> (n: u64)
        ensures
            n == self.stats().successes,
    {
        match self {
            Backend::Http(b) => b.success_count(),
            Backend::Runtime(b) => b.success_count(),
        }
    }

    /// The consecutive failed health checks.
    pub fn failure_count(&self) -> (n: u64)
        ensures
            n == self.stats().failures,
    {
        match self {
            Backend::Http(b) => b.failure_count(),
            Backend::Runtime(b) => b.failure_count(),
        }
    }

    /// The health summary of this backend.
    pub fn health(&self) -> (h: BackendHealth)
        ensures
            h.backend_id@ == self.id_spec(),
            h.healthy == self.stats().healthy,
            h.latency_ms == (if self.stats().latency_ms > 0 { Some(self.stats().latency_ms) } else { None }),
            h.last_check.is_some() == self.stats().checked,
            h.active_requests == self.stats().active,
            h.total_requests == self.stats().total,
            h.backend_type == (if self is Http { BackendType::Http } else { BackendType::Runtime }),
    {
        match self {
            Backend::Http(b) => b.health(),
            Backend::Runtime(b) => b.health(),
        }
    }
}

} // verus!
