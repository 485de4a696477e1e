//! Request forwarding decisions of the proxy: which backend receives a
//! request, and the responses sent when none can.

use crate::runtime::lb::backend::{
    available_spec, breaker_failure, breaker_observed, breaker_step, breaker_success, wrap_dec,
    wrap_inc, Backend, BackendHealth, BackendType, StatsView,
};
use crate::runtime::lb::circuit_breaker::CircuitBreaker;
use crate::runtime::lb::health::{default_settings, is_http_check_of, probed, HealthCheckConfig};
use crate::runtime::lb::selection::{rr_advance, rr_pick, LoadBalanceStrategy, RoundRobin, Selection};
use crate::runtime::request::{headers_view, Response};
use crate::text::push_str;
use crate::time::{duration_from_secs, secs_duration};
use std::time::Duration;
use vstd::prelude::*;
use vstd::utf8::encode_utf8;

verus! {

broadcast use vstd::string::group_string_axioms;

/// Outcome of choosing a backend for a request.
#[derive(Debug, Clone, Copy, PartialEq, Eq, Structural)]
pub enum SelectResult {
    /// The backend at this index was selected.
    Selected(usize),
    /// No healthy backends are available.
    NoHealthyBackends,
    /// All healthy backends are at connection capacity.
    AllAtCapacity,
}

/// The indices `0..n` in order.
pub open spec fn index_range(n: nat) -> Seq<usize> {
    Seq::new(n, |i: int| i as usize)
}

/// Whether backend `i` is available once the clock was read: `before` is
/// the list before, `after` after the reading.
pub open spec fn available_at(before: Seq<Backend>, after: Seq<Backend>, i: int) -> bool {
    available_spec(before[i].stats().healthy, after[i].breaker())
}

/// The indices below `n` of the available backends, in increasing order.
pub open spec fn available_upto(before: Seq<Backend>, after: Seq<Backend>, n: nat) -> Seq<usize>
    decreases n,
{
    if n == 0 {
        Seq::empty()
    } else {
        let rest = available_upto(before, after, (n - 1) as nat);
        if available_at(before, after, n - 1) {
            rest.push((n - 1) as usize)
        } else {
            rest
        }
    }
}

/// The indices of all available backends, in increasing order.
pub open spec fn available_indices(before: Seq<Backend>, after: Seq<Backend>) -> Seq<usize> {
    available_upto(before, after, after.len())
}

proof fn lemma_available_upto_bounded(before: Seq<Backend>, after: Seq<Backend>, n: nat)
    ensures
        forall|k: int|
            0 <= k < available_upto(before, after, n).len() ==> #[trigger] available_upto(
                before,
                after,
                n,
            )[k] < n,
    decreases n,
{
    if n > 0 {
        lemma_available_upto_bounded(before, after, (n - 1) as nat);
        let rest = available_upto(before, after, (n - 1) as nat);
        let all = available_upto(before, after, n);
        assert forall|k: int| 0 <= k < all.len() implies #[trigger] all[k] < n by {
            if k < rest.len() {
                assert(all[k] == rest[k]);
            }
        }
    }
}

proof fn lemma_available_upto_frame(before: Seq<Backend>, a1: Seq<Backend>, a2: Seq<Backend>, n: nat)
    requires
        n <= a1.len(),
        n <= a2.len(),
        forall|j: int| 0 <= j < n ==> a1[j] == a2[j],
    ensures
        available_upto(before, a1, n) == available_upto(before, a2, n),
    decreases n,
{
    if n > 0 {
        lemma_available_upto_frame(before, a1, a2, (n - 1) as nat);
    }
}

/// Those of `avail` whose backend has connection capacity.
pub open spec fn capacity_indices(backends: Seq<Backend>, avail: Seq<usize>) -> Seq<usize> {
    avail.filter(
        |i: usize|
            backends[i as int].stats().active < backends[i as int].stats().max_connections as u64,
    )
}

proof fn lemma_capacity_bounded(backends: Seq<Backend>, avail: Seq<usize>, n: nat)
    requires
        forall|k: int| 0 <= k < avail.len() ==> #[trigger] avail[k] < n,
    ensures
        forall|k: int|
            0 <= k < capacity_indices(backends, avail).len() ==> #[trigger] capacity_indices(
                backends,
                avail,
            )[k] < n,
    decreases avail.len(),
{
    reveal(Seq::filter);
    if avail.len() > 0 {
        let rest = avail.drop_last();
        assert forall|k: int| 0 <= k < rest.len() implies #[trigger] rest[k] < n by {
            assert(rest[k] == avail[k]);
        }
        lemma_capacity_bounded(backends, rest, n);
        let sub = capacity_indices(backends, rest);
        let all = capacity_indices(backends, avail);
        assert forall|k: int| 0 <= k < all.len() implies #[trigger] all[k] < n by {
            if k < sub.len() {
                assert(all[k] == sub[k]);
            } else {
                assert(all[k] == avail.last());
            }
        }
    }
}

/// `after` is `before` once each backend's availability was asked: every
/// backend is unchanged but for its breaker having read the clock.
pub open spec fn availability_asked(before: Seq<Backend>, after: Seq<Backend>) -> bool {
    &&& after.len() == before.len()
    &&& forall|i: int|
        0 <= i < before.len() ==> {
            let (a, b) = (#[trigger] before[i], after[i]);
            &&& b.wf()
            &&& b.stats() == a.stats()
            &&& b.id_spec() == a.id_spec()
            &&& (a is Http <==> b is Http)
            &&& !a.stats().healthy ==> b.breaker() == a.breaker()
            &&& a.stats().healthy ==> breaker_step(
                a.breaker(),
                b.breaker(),
                |x: CircuitBreaker, y: CircuitBreaker| breaker_observed(x, y),
            )
        }
}

/// Every backend keeps its breaker's invariant.
pub open spec fn all_wf(backends: Seq<Backend>) -> bool {
    forall|i: int| 0 <= i < backends.len() ==> (#[trigger] backends[i]).wf()
}

/// Selects a backend: among those available (healthy, breaker not open),
/// those with connection capacity, then the next one by round robin.
pub fn select_backend(backends: &mut Vec<Backend>, selector: &mut RoundRobin) -> (r: SelectResult)
    requires
        all_wf(old(backends)@),
    ensures
        availability_asked(old(backends)@, final(backends)@),
        ({
            let avail = available_indices(old(backends)@, final(backends)@);
            let cap = capacity_indices(final(backends)@, avail);
            &&& avail.len() == 0 ==> r == SelectResult::NoHealthyBackends
            &&& avail.len() > 0 && cap.len() == 0 ==> r == SelectResult::AllAtCapacity
            &&& avail.len() > 0 && cap.len() > 0 ==> r == SelectResult::Selected(
                rr_pick(old(selector).counter(), old(selector).total_spec(), cap),
            ) && final(selector).counter() == rr_advance(
                old(selector).counter(),
                old(selector).total_spec(),
            )
            &&& !(avail.len() > 0 && cap.len() > 0) ==> final(selector).counter() == old(
                selector,
            ).counter()
            &&& final(selector).total_spec() == old(selector).total_spec()
        }),
{
    let ghost before = backends@;
    let mut available: Vec<usize> = Vec::new();
    let mut i: usize = 0;
    while i < backends.len()
        invariant
            0 <= i <= backends@.len(),
            backends@.len() == before.len(),
            all_wf(before),
            availability_asked(before.take(i as int), backends@.take(i as int)),
            forall|j: int| i <= j < before.len() ==> backends@[j] == before[j],
            available@ == available_upto(before, backends@, i as nat),
        decreases before.len() - i,
    {
        let ghost prev = backends@;
        assert(before[i as int].wf());
        let ok = backends[i].is_available();
        proof {
            assert(backends@ =~= prev.update(i as int, backends@[i as int]));
            lemma_available_upto_frame(before, prev, backends@, i as nat);
            assert(availability_asked(before.take(i + 1), backends@.take(i + 1))) by {
                assert forall|j: int| 0 <= j < i + 1 implies {
                    let (a, b) = (#[trigger] before.take(i + 1)[j], backends@.take(i + 1)[j]);
                    &&& b.wf()
                    &&& b.stats() == a.stats()
                    &&& b.id_spec() == a.id_spec()
                    &&& (a is Http <==> b is Http)
                    &&& !a.stats().healthy ==> b.breaker() == a.breaker()
                    &&& a.stats().healthy ==> breaker_step(
                        a.breaker(),
                        b.breaker(),
                        |x: CircuitBreaker, y: CircuitBreaker| breaker_observed(x, y),
                    )
                } by {
                    if j < i {
                        assert(before.take(i as int)[j] == before.take(i + 1)[j]);
                        assert(prev.take(i as int)[j] == backends@.take(i + 1)[j]);
                    }
                }
            }
        }
        if ok {
            available.push(i);
        }
        i = i + 1;
    }
    proof {
        assert(before.take(before.len() as int) =~= before);
        assert(backends@.take(before.len() as int) =~= backends@);
    }
    if available.len() == 0 {
        return SelectResult::NoHealthyBackends;
    }
    let ghost after = backends@;
    proof {
        lemma_available_upto_bounded(before, after, after.len());
    }
    let mut with_capacity: Vec<usize> = Vec::new();
    let mut j: usize = 0;
    while j < available.len()
        invariant
            0 <= j <= available@.len(),
            backends@ == after,
            forall|k: int| 0 <= k < available@.len() ==> available@[k] < after.len(),
            with_capacity@ == capacity_indices(after, available@.take(j as int)),
        decreases available@.len() - j,
    {
        reveal(Seq::filter);
        assert(available@.take(j + 1).drop_last() =~= available@.take(j as int));
        let idx = available[j];
        if backends[idx].has_capacity() {
            with_capacity.push(idx);
        }
        j = j + 1;
    }
    assert(available@.take(available@.len() as int) =~= available@);
    if with_capacity.len() == 0 {
        return SelectResult::AllAtCapacity;
    }
    match selector.select(with_capacity.as_slice()) {
        Some(idx) => SelectResult::Selected(idx),
        None => SelectResult::AllAtCapacity,
    }
}

/// A response with the given status, a `text/plain` content type and `body`.
pub open spec fn is_text_response(r: Response, status: u16, body: Seq<char>) -> bool {
    &&& r.status == status
    &&& headers_view(r.headers@) == seq![("Content-Type"@, "text/plain"@)]
    &&& r.body@ == encode_utf8(body)
}

fn text_response(status: u16, body: &str) -> (r: Response)
    ensures
        is_text_response(r, status, body@),
{
    let r = Response::new(status).with_header("Content-Type", "text/plain").with_body_str(body);
    assert(headers_view(r.headers@) =~= seq![("Content-Type"@, "text/plain"@)]);
    r
}

/// The 503 answer when no backend is available.
pub fn no_healthy_backends_response() -> (r: Response)
    ensures
        is_text_response(r, 503, "No healthy backends available"@),
{
    text_response(503, "No healthy backends available")
}

/// The 503 answer when every available backend is at connection capacity.
pub fn all_at_capacity_response() -> (r: Response)
    ensures
        is_text_response(r, 503, "All backends at connection capacity"@),
{
    text_response(503, "All backends at connection capacity")
}

/// The 502 answer when forwarding to the chosen backend failed with `error`.
pub fn backend_error_response(error: &str) -> (r: Response)
    ensures
        is_text_response(r, 502, "Backend error: "@ + error@),
{
    let mut body = String::new();
    push_str(&mut body, "Backend error: ");
    push_str(&mut body, error);
    text_response(502, body.as_str())
}

/// The answer for a selection that found no backend; `None` when a backend
/// was selected.
pub fn selection_failure_response(r: SelectResult) -> (resp: Option<Response>)
    ensures
        r is Selected <==> resp is None,
        r is NoHealthyBackends ==> (resp matches Some(x) && is_text_response(x, 503, "No healthy backends available"@)),
        r is AllAtCapacity ==> (resp matches Some(x) && is_text_response(x, 503, "All backends at connection capacity"@)),
{
    match r {
        SelectResult::Selected(_) => None,
        SelectResult::NoHealthyBackends => Some(no_healthy_backends_response()),
        SelectResult::AllAtCapacity => Some(all_at_capacity_response()),
    }
}

/// An HTTP client of the reqwest crate, opaque to the proofs.
#[verifier::external_type_specification]
#[verifier::external_body]
pub struct ExHttpClient(reqwest::Client);

/// A builder of reqwest HTTP clients, opaque to the proofs.
#[verifier::external_type_specification]
#[verifier::external_body]
pub struct ExHttpClientBuilder(reqwest::ClientBuilder);

/// `reqwest::Client::builder()` with the total request timeout, the idle
/// connections kept per host, the idle timeout of pooled connections and
/// the TCP keepalive set. Only configures; nothing is stated of the value.
#[verifier::external_body]
fn http_client_builder(
    timeout: Duration,
    max_idle_per_host: usize,
    pool_idle_timeout: Duration,
    tcp_keepalive: Duration,
) -> reqwest::ClientBuilder {
    reqwest::Client::builder().timeout(timeout).pool_max_idle_per_host(max_idle_per_host)
        .pool_idle_timeout(pool_idle_timeout).tcp_keepalive(tcp_keepalive)
}

/// `ClientBuilder::http2_prior_knowledge`: the client speaks HTTP/2 only.
#[verifier::external_body]
fn with_http2_prior_knowledge(builder: reqwest::ClientBuilder) -> reqwest::ClientBuilder {
    builder.http2_prior_knowledge()
}

/// `ClientBuilder::build`, its error dropped (`None`): it fails when a TLS
/// backend cannot be initialized or the resolver cannot load the system
/// configuration, which depends on the machine; nothing is stated of the
/// outcome.
#[verifier::external_body]
pub(crate) fn build_http_client(builder: reqwest::ClientBuilder) -> Option<reqwest::Client> {
    builder.build().ok()
}

/// Why a proxy or load balancer could not be built.
#[derive(Debug, Clone, Copy, PartialEq, Eq, Structural)]
pub enum LbBuildError {
    /// No backend was configured.
    NoBackends,
    /// The HTTP client could not be created.
    HttpClient,
}

impl LbBuildError {
    /// The message of the error.
    pub open spec fn message(self) -> Seq<char> {
        match self {
            LbBuildError::NoBackends => "At least one backend must be configured"@,
            LbBuildError::HttpClient => "Failed to create HTTP client"@,
        }
    }

    /// The message of the error.
    pub fn to_string(&self) -> (s: String)
        ensures
            s@ == self.message(),
    {
        match self {
            LbBuildError::NoBackends => "At least one backend must be configured".to_string(),
            LbBuildError::HttpClient => "Failed to create HTTP client".to_string(),
        }
    }
}

/// The settings of a proxy besides its backends.
#[derive(Debug, Clone)]
pub struct ProxySettings {
    /// Load balancing strategy.
    pub strategy: LoadBalanceStrategy,
    /// Health checks, if any.
    pub health_check: Option<HealthCheckConfig>,
    /// Timeout of a forwarded request.
    pub request_timeout: Duration,
    /// Idle connections kept per HTTP backend.
    pub max_connections_per_backend: usize,
    /// How long pooled connections may stay idle.
    pub pool_idle_timeout: Duration,
    /// TCP keepalive interval.
    pub tcp_keepalive: Duration,
    /// Whether backends are spoken to in HTTP/2 only.
    pub http2_only: bool,
}

/// The settings a new builder starts from: round robin, HTTP checks of
/// `/health` with the default timing, 30 s requests, 100 connections per
/// backend, 90 s pool idle timeout, 60 s keepalive, HTTP/1 allowed.
pub open spec fn is_default_proxy_settings(s: ProxySettings) -> bool {
    &&& s.strategy == LoadBalanceStrategy::RoundRobin
    &&& s.health_check matches Some(c) && default_settings(c) && is_http_check_of(c, "/health"@)
    &&& s.request_timeout == secs_duration(30)
    &&& s.max_connections_per_backend == 100
    &&& s.pool_idle_timeout == secs_duration(90)
    &&& s.tcp_keepalive == secs_duration(60)
    &&& !s.http2_only
}

/// The settings that start out empty: no health checks, zero durations and
/// limits.
pub open spec fn is_empty_proxy_settings(s: ProxySettings) -> bool {
    &&& s.strategy == LoadBalanceStrategy::RoundRobin
    &&& s.health_check is None
    &&& s.request_timeout == secs_duration(0)
    &&& s.max_connections_per_backend == 0
    &&& s.pool_idle_timeout == secs_duration(0)
    &&& s.tcp_keepalive == secs_duration(0)
    &&& !s.http2_only
}

/// The default settings of a new builder.
pub fn default_proxy_settings() -> (s: ProxySettings)
    ensures
        is_default_proxy_settings(s),
{
    ProxySettings {
        strategy: LoadBalanceStrategy::RoundRobin,
        health_check: Some(HealthCheckConfig::default()),
        request_timeout: duration_from_secs(30),
        max_connections_per_backend: 100,
        pool_idle_timeout: duration_from_secs(90),
        tcp_keepalive: duration_from_secs(60),
        http2_only: false,
    }
}

/// Builder for [`Proxy`].
pub struct ProxyBuilder {
    backends: Vec<Backend>,
    settings: ProxySettings,
}

impl Default for ProxyBuilder {
    /// An empty builder whose settings are all empty (as a derived default).
    fn default() -> (b: Self)
        ensures
            b.backends_spec().len() == 0,
            is_empty_proxy_settings(b.settings_spec()),
    {
        ProxyBuilder {
            backends: Vec::new(),
            settings: ProxySettings {
                strategy: LoadBalanceStrategy::RoundRobin,
                health_check: None,
                request_timeout: duration_from_secs(0),
                max_connections_per_backend: 0,
                pool_idle_timeout: duration_from_secs(0),
                tcp_keepalive: duration_from_secs(0),
                http2_only: false,
            },
        }
    }
}

impl ProxyBuilder {
    /// The backends added so far, in order.
    pub closed spec fn backends_spec(&self) -> Seq<Backend> {
        self.backends@
    }

    /// The settings so far.
    pub closed spec fn settings_spec(&self) -> ProxySettings {
        self.settings
    }

    /// A builder with no backends and the default settings.
    pub fn new() -> (b: Self)
        ensures
            b.backends_spec().len() == 0,
            is_default_proxy_settings(b.settings_spec()),
    {
        ProxyBuilder { backends: Vec::new(), settings: default_proxy_settings() }
    }

    /// A builder holding these backends and settings.
    pub fn with_settings(backends: Vec<Backend>, settings: ProxySettings) -> (b: Self)
        ensures
            b.backends_spec() == backends@,
            b.settings_spec() == settings,
    {
        ProxyBuilder { backends, settings }
    }

    /// Adds a backend.
    pub fn backend(self, backend: Backend) -> (b: Self)
        ensures
            b.backends_spec() == self.backends_spec().push(backend),
            b.settings_spec() == self.settings_spec(),
    {
        let mut b = self;
        b.backends.push(backend);
        b
    }

    /// Adds an HTTP backend at `address`.
    pub fn http_backend(self, address: &str) -> (b: Self)
        ensures
            b.backends_spec().len() == self.backends_spec().len() + 1,
            b.backends_spec().drop_last() == self.backends_spec(),
            b.backends_spec().last() is Http,
            b.backends_spec().last().id_spec() == address@,
            b.settings_spec() == self.settings_spec(),
    {
        let mut b = self;
        b.backends.push(Backend::http(address));
        assert(b.backends@.drop_last() =~= self.backends@);
        b
    }

    /// Sets the load balancing strategy.
    pub fn strategy(self, strategy: LoadBalanceStrategy) -> (b: Self)
        ensures
            b.backends_spec() == self.backends_spec(),
            b.settings_spec() == (ProxySettings { strategy, ..self.settings_spec() }),
    {
        let mut b = self;
        b.settings.strategy = strategy;
        b
    }

    /// Sets the health checks; `None` disables them.
    pub fn health_check(self, config: Option<HealthCheckConfig>) -> (b: Self)
        ensures
            b.backends_spec() == self.backends_spec(),
            b.settings_spec() == (ProxySettings { health_check: config, ..self.settings_spec() }),
    {
        let mut b = self;
        b.settings.health_check = config;
        b
    }

    /// Sets the request timeout.
    pub fn request_timeout(self, timeout: Duration) -> (b: Self)
        ensures
            b.backends_spec() == self.backends_spec(),
            b.settings_spec() == (ProxySettings { request_timeout: timeout, ..self.settings_spec() }),
    {
        let mut b = self;
        b.settings.request_timeout = timeout;
        b
    }

    /// Sets the idle connections kept per HTTP backend.
    pub fn max_connections_per_backend(self, max: usize) -> (b: Self)
        ensures
            b.backends_spec() == self.backends_spec(),
            b.settings_spec() == (ProxySettings { max_connections_per_backend: max, ..self.settings_spec() }),
    {
        let mut b = self;
        b.settings.max_connections_per_backend = max;
        b
    }

    /// Sets the idle timeout of pooled connections.
    pub fn pool_idle_timeout(self, timeout: Duration) -> (b: Self)
        ensures
            b.backends_spec() == self.backends_spec(),
            b.settings_spec() == (ProxySettings { pool_idle_timeout: timeout, ..self.settings_spec() }),
    {
        let mut b = self;
        b.settings.pool_idle_timeout = timeout;
        b
    }

    /// Sets the TCP keepalive interval.
    pub fn tcp_keepalive(self, interval: Duration) -> (b: Self)
        ensures
            b.backends_spec() == self.backends_spec(),
            b.settings_spec() == (ProxySettings { tcp_keepalive: interval, ..self.settings_spec() }),
    {
        let mut b = self;
        b.settings.tcp_keepalive = interval;
        b
    }

    /// Speaks HTTP/2 only (prior knowledge) to the backends when enabled.
    pub fn http2_only(self, enabled: bool) -> (b: Self)
        ensures
            b.backends_spec() == self.backends_spec(),
            b.settings_spec() == (ProxySettings { http2_only: enabled, ..self.settings_spec() }),
    {
        let mut b = self;
        b.settings.http2_only = enabled;
        b
    }

    /// Builds the proxy: refused without backends; otherwise the HTTP client
    /// is created from the settings (which may fail, depending on the
    /// machine) and the selector starts at the first position.
    pub fn build(self) -> (r: Result<Proxy, LbBuildError>)
        requires
            all_wf(self.backends_spec()),
        ensures
            r == Err::<Proxy, LbBuildError>(LbBuildError::NoBackends) <==> self.backends_spec().len() == 0,
            r matches Err(e) ==> e == LbBuildError::NoBackends || e == LbBuildError::HttpClient,
            r matches Ok(p) ==> {
                &&& p.wf()
                &&& p.backends_spec() == self.backends_spec()
                &&& p.health_check_spec() == self.settings_spec().health_check
                &&& p.request_timeout_spec() == self.settings_spec().request_timeout
                &&& p.selector_spec().counter() == 0
                &&& p.selector_spec().total_spec() == self.backends_spec().len()
            },
    {
        if self.backends.len() == 0 {
            return Err(LbBuildError::NoBackends);
        }
        let ProxyBuilder { backends, settings } = self;
        let mut client_builder = http_client_builder(
            settings.request_timeout,
            settings.max_connections_per_backend,
            settings.pool_idle_timeout,
            settings.tcp_keepalive,
        );
        if settings.http2_only {
            client_builder = with_http2_prior_knowledge(client_builder);
        }
        let http_client = match build_http_client(client_builder) {
            Some(c) => c,
            None => {
                return Err(LbBuildError::HttpClient);
            },
        };
        let selector = settings.strategy.into_selector(backends.len());
        Ok(
            Proxy {
                backends,
                health_check: settings.health_check,
                selector,
                request_timeout: settings.request_timeout,
                http_client,
            },
        )
    }
}

/// Core proxy: its backends, the selector choosing among them, and the
/// settings of forwarding. Sending a request to a backend is I/O that
/// happens outside; choosing the backend before and accounting for the
/// outcome after happen here.
pub struct Proxy {
    backends: Vec<Backend>,
    health_check: Option<HealthCheckConfig>,
    selector: RoundRobin,
    request_timeout: Duration,
    http_client: reqwest::Client,
}

/// Backend `i` of `after` is backend `i` of `before` with `step` applied to
/// it, and every other backend is unchanged.
pub open spec fn only_changed(before: Seq<Backend>, after: Seq<Backend>, i: int) -> bool {
    &&& after.len() == before.len()
    &&& forall|j: int| 0 <= j < before.len() && j != i ==> #[trigger] after[j] == before[j]
}

impl Proxy {
    /// The backends, in order.
    pub closed spec fn backends_spec(&self) -> Seq<Backend> {
        self.backends@
    }

    /// The health check settings.
    pub closed spec fn health_check_spec(&self) -> Option<HealthCheckConfig> {
        self.health_check
    }

    /// The selector.
    pub closed spec fn selector_spec(&self) -> RoundRobin {
        self.selector
    }

    /// The request timeout.
    pub closed spec fn request_timeout_spec(&self) -> Duration {
        self.request_timeout
    }

    /// Every backend keeps its invariant.
    pub open spec fn wf(&self) -> bool {
        all_wf(self.backends_spec())
    }

    /// A builder with no backends and the default settings.
    pub fn builder() -> (b: ProxyBuilder)
        ensures
            b.backends_spec().len() == 0,
            is_default_proxy_settings(b.settings_spec()),
    {
        ProxyBuilder::new()
    }

    /// The backends, in order.
    pub fn backends(&self) -> (b: &Vec<Backend>)
        ensures
            b@ == self.backends_spec(),
    {
        &self.backends
    }

    /// The health check settings, if health checks are enabled.
    pub fn health_check(&self) -> (c: &Option<HealthCheckConfig>)
        ensures
            *c == self.health_check_spec(),
    {
        &self.health_check
    }

    /// The timeout of a forwarded request.
    pub fn request_timeout(&self) -> (d: Duration)
        ensures
            d == self.request_timeout_spec(),
    {
        self.request_timeout
    }

    /// The HTTP client shared by the HTTP backends.
    pub fn http_client(&self) -> &reqwest::Client {
        &self.http_client
    }

    /// The health summary of every backend, in order.
    pub fn health_status(&self) -> (h: Vec<BackendHealth>)
        ensures
            h@.len() == self.backends_spec().len(),
            forall|i: int|
                0 <= i < h@.len() ==> {
                    let (x, b) = (#[trigger] h@[i], self.backends_spec()[i]);
                    &&& x.backend_id@ == b.id_spec()
                    &&& x.healthy == b.stats().healthy
                    &&& x.active_requests == b.stats().active
                    &&& x.total_requests == b.stats().total
                    &&& x.backend_type == (if b is Http { BackendType::Http } else { BackendType::Runtime })
                },
    {
        let mut out: Vec<BackendHealth> = Vec::new();
        let mut i: usize = 0;
        while i < self.backends.len()
            invariant
                0 <= i <= self.backends@.len(),
                out@.len() == i,
                forall|k: int|
                    0 <= k < i ==> {
                        let (x, b) = (#[trigger] out@[k], self.backends@[k]);
                        &&& x.backend_id@ == b.id_spec()
                        &&& x.healthy == b.stats().healthy
                        &&& x.active_requests == b.stats().active
                        &&& x.total_requests == b.stats().total
                        &&& x.backend_type == (if b is Http { BackendType::Http } else { BackendType::Runtime })
                    },
            decreases self.backends@.len() - i,
        {
            out.push(self.backends[i].health());
            i = i + 1;
        }
        out
    }

    /// Chooses the backend for a request, as `select_backend` does with
    /// this proxy's backends and selector.
    pub fn select(&mut self) -> (r: SelectResult)
        requires
            old(self).wf(),
        ensures
            final(self).wf(),
            final(self).health_check_spec() == old(self).health_check_spec(),
            final(self).request_timeout_spec() == old(self).request_timeout_spec(),
            availability_asked(old(self).backends_spec(), final(self).backends_spec()),
            ({
                let avail = available_indices(old(self).backends_spec(), final(self).backends_spec());
                let cap = capacity_indices(final(self).backends_spec(), avail);
                let (s0, s1) = (old(self).selector_spec(), final(self).selector_spec());
                &&& avail.len() == 0 ==> r == SelectResult::NoHealthyBackends
                &&& avail.len() > 0 && cap.len() == 0 ==> r == SelectResult::AllAtCapacity
                &&& avail.len() > 0 && cap.len() > 0 ==> r == SelectResult::Selected(
                    rr_pick(s0.counter(), s0.total_spec(), cap),
                ) && s1.counter() == rr_advance(s0.counter(), s0.total_spec())
                &&& !(avail.len() > 0 && cap.len() > 0) ==> s1.counter() == s0.counter()
                &&& s1.total_spec() == s0.total_spec()
            }),
            r matches SelectResult::Selected(i) ==> i < final(self).backends_spec().len(),
    {
        let ghost before = self.backends@;
        let choice = select_backend(&mut self.backends, &mut self.selector);
        let ghost asked = self.backends@;
        proof {
            assert forall|k: int| 0 <= k < asked.len() implies (#[trigger] asked[k]).wf() by {
                assert(before[k].wf());
            }
            let avail = available_indices(before, asked);
            let cap = capacity_indices(asked, avail);
            lemma_available_upto_bounded(before, asked, asked.len());
            lemma_capacity_bounded(asked, avail, asked.len());
            if avail.len() > 0 && cap.len() > 0 {
                let c = old(self).selector.counter();
                let t = old(self).selector.total_spec();
                let pos: int = if t == 0 { 0 } else { (c % t) as int };
                assert(0 <= pos % (cap.len() as int) < cap.len());
                assert(cap[pos % (cap.len() as int)] < asked.len());
            }
        }
        choice
    }

    /// Counts one more active request on backend `index`.
    pub fn start_request(&mut self, index: usize)
        requires
            index < old(self).backends_spec().len(),
        ensures
            final(self).health_check_spec() == old(self).health_check_spec(),
            final(self).request_timeout_spec() == old(self).request_timeout_spec(),
            final(self).selector_spec() == old(self).selector_spec(),
            only_changed(old(self).backends_spec(), final(self).backends_spec(), index as int),
            old(self).backends_spec()[index as int].same_but_stats(
                final(self).backends_spec()[index as int],
                StatsView {
                    active: wrap_inc(old(self).backends_spec()[index as int].stats().active),
                    ..old(self).backends_spec()[index as int].stats()
                },
            ),
            old(self).wf() ==> final(self).wf(),
    {
        let ghost before = self.backends@;
        self.backends[index].start_request();
        proof {
            let after = self.backends@;
            if all_wf(before) {
                assert forall|k: int| 0 <= k < after.len() implies (#[trigger] after[k]).wf() by {
                    if k != index {
                        assert(after[k] == before[k]);
                    } else {
                        assert(before[k].wf());
                    }
                }
            }
        }
    }

    /// Stores the latency of the last request to backend `index`.
    pub fn record_latency(&mut self, index: usize, latency_ms: u64)
        requires
            index < old(self).backends_spec().len(),
        ensures
            final(self).health_check_spec() == old(self).health_check_spec(),
            final(self).request_timeout_spec() == old(self).request_timeout_spec(),
            final(self).selector_spec() == old(self).selector_spec(),
            only_changed(old(self).backends_spec(), final(self).backends_spec(), index as int),
            old(self).backends_spec()[index as int].same_but_stats(
                final(self).backends_spec()[index as int],
                StatsView { latency_ms, ..old(self).backends_spec()[index as int].stats() },
            ),
            old(self).wf() ==> final(self).wf(),
    {
        let ghost before = self.backends@;
        self.backends[index].record_latency(latency_ms);
        proof {
            let after = self.backends@;
            if all_wf(before) {
                assert forall|k: int| 0 <= k < after.len() implies (#[trigger] after[k]).wf() by {
                    if k != index {
                        assert(after[k] == before[k]);
                    } else {
                        assert(before[k].wf());
                    }
                }
            }
        }
    }

    /// Applies one round of health check results to the backends, as
    /// `apply_probe_results` does.
    pub fn apply_probe_results(&mut self, results: &Vec<bool>)
        ensures
            final(self).health_check_spec() == old(self).health_check_spec(),
            final(self).request_timeout_spec() == old(self).request_timeout_spec(),
            final(self).selector_spec() == old(self).selector_spec(),
            final(self).backends_spec().len() == old(self).backends_spec().len(),
            forall|i: int|
                0 <= i < old(self).backends_spec().len() ==> {
                    let (a, b) = (#[trigger] old(self).backends_spec()[i], final(self).backends_spec()[i]);
                    if i < results@.len() {
                        a.same_but_stats(b, probed(a.stats(), results@[i]))
                    } else {
                        b == a
                    }
                },
            old(self).wf() ==> final(self).wf(),
    {
        let ghost before = self.backends@;
        crate::runtime::lb::health::apply_probe_results(&mut self.backends, results);
        proof {
            let after = self.backends@;
            if all_wf(before) {
                assert forall|k: int| 0 <= k < after.len() implies (#[trigger] after[k]).wf() by {
                    assert(before[k].wf());
                }
            }
        }
    }

    /// Accounts for the outcome of a request forwarded to backend `index`:
    /// one active request fewer, one more in total, and a success or a
    /// failure for its breaker. A backend's answer is passed on; a failure
    /// becomes the 502 answer naming it.
    pub fn finish_forward(&mut self, index: usize, outcome: Result<Response, String>) -> (r: Response)
        requires
            old(self).wf(),
            index < old(self).backends_spec().len(),
        ensures
            final(self).wf(),
            final(self).health_check_spec() == old(self).health_check_spec(),
            final(self).request_timeout_spec() == old(self).request_timeout_spec(),
            final(self).selector_spec() == old(self).selector_spec(),
            only_changed(old(self).backends_spec(), final(self).backends_spec(), index as int),
            ({
                let (a, b) = (old(self).backends_spec()[index as int], final(self).backends_spec()[index as int]);
                &&& b.id_spec() == a.id_spec()
                &&& b.stats() == (StatsView {
                    active: wrap_dec(a.stats().active),
                    total: wrap_inc(a.stats().total),
                    ..a.stats()
                })
                &&& outcome is Ok ==> breaker_step(a.breaker(), b.breaker(), |x: CircuitBreaker, y: CircuitBreaker| breaker_success(x, y))
                &&& outcome is Err ==> breaker_step(a.breaker(), b.breaker(), |x: CircuitBreaker, y: CircuitBreaker| breaker_failure(x, y))
            }),
            outcome matches Ok(resp) ==> r == resp,
            outcome matches Err(e) ==> is_text_response(r, 502, "Backend error: "@ + e@),
    {
        let ghost before = self.backends@;
        self.backends[index].end_request();
        let ghost mid = self.backends@;
        assert(mid[index as int].wf());
        let r = match outcome {
            Ok(resp) => {
                self.backends[index].record_success();
                resp
            },
            Err(e) => {
                self.backends[index].record_failure();
                backend_error_response(e.as_str())
            },
        };
        proof {
            let after = self.backends@;
            assert forall|k: int| 0 <= k < after.len() implies (#[trigger] after[k]).wf() by {
                if k != index {
                    assert(after[k] == before[k]);
                }
            }
        }
        r
    }
}

} // verus!
