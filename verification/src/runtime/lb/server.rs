//! The load balancer as a network service: a proxy together with the
//! address it listens on. Accepting connections is I/O that happens
//! outside; this module builds the load balancer from its settings.

use crate::runtime::lb::backend::{Backend, DEFAULT_MAX_CONNECTIONS, fresh_stats};
use crate::runtime::lb::health::{default_settings, is_http_check_of, HealthCheckConfig};
use crate::runtime::lb::proxy::{
    default_proxy_settings, is_default_proxy_settings, LbBuildError, Proxy, ProxyBuilder,
    ProxySettings,
};
use crate::runtime::lb::selection::LoadBalanceStrategy;
use std::time::Duration;
use vstd::prelude::*;

verus! {

broadcast use vstd::string::group_string_axioms;

/// Default address for the load balancer to listen on.
pub const DEFAULT_LISTEN_ADDR: &'static str = "0.0.0.0:3000";

/// L7 load balancer: a proxy and the address it serves on.
pub struct LoadBalancer {
    proxy: Proxy,
    addr: String,
    http2_only: bool,
}

impl LoadBalancer {
    /// The proxy.
    pub closed spec fn proxy_spec(&self) -> Proxy {
        self.proxy
    }

    /// The listen address.
    pub closed spec fn addr_spec(&self) -> Seq<char> {
        self.addr@
    }

    /// Whether incoming connections are served in HTTP/2 only.
    pub closed spec fn http2_spec(&self) -> bool {
        self.http2_only
    }

    /// Wraps a proxy to serve it on `addr`, over HTTP/1.1.
    pub fn new(proxy: Proxy, addr: &str) -> (lb: Self)
        ensures
            lb.proxy_spec() == proxy,
            lb.addr_spec() == addr@,
            !lb.http2_spec(),
    {
        LoadBalancer { proxy, addr: addr.to_string(), http2_only: false }
    }

    /// Wraps a proxy to serve it on `addr`, in HTTP/2 only when asked.
    pub fn with_http2(proxy: Proxy, addr: &str, http2_only: bool) -> (lb: Self)
        ensures
            lb.proxy_spec() == proxy,
            lb.addr_spec() == addr@,
            lb.http2_spec() == http2_only,
    {
        LoadBalancer { proxy, addr: addr.to_string(), http2_only }
    }

    /// A builder with the default settings.
    pub fn builder() -> (b: LoadBalancerBuilder)
        ensures
            b.addr_spec() == DEFAULT_LISTEN_ADDR@,
            b.backends_spec().len() == 0,
            is_default_proxy_settings(b.settings_spec()),
    {
        LoadBalancerBuilder::new()
    }

    /// The proxy.
    pub fn proxy(&self) -> (p: &Proxy)
        ensures
            *p == self.proxy_spec(),
    {
        &self.proxy
    }

    /// The proxy, for forwarding requests.
    pub fn proxy_mut(&mut self) -> (p: &mut Proxy)
        ensures
            *p == old(self).proxy_spec(),
            final(self).proxy_spec() == *final(p),
            final(self).addr_spec() == old(self).addr_spec(),
            final(self).http2_spec() == old(self).http2_spec(),
    {
        &mut self.proxy
    }

    /// The listen address.
    pub fn addr(&self) -> (a: &str)
        ensures
            a@ == self.addr_spec(),
    {
        self.addr.as_str()
    }

    /// Whether incoming connections are served in HTTP/2 only.
    pub fn http2_only(&self) -> (b: bool)
        ensures
            b == self.http2_spec(),
    {
        self.http2_only
    }
}

/// Builder for [`LoadBalancer`].
pub struct LoadBalancerBuilder {
    addr: String,
    backends: Vec<String>,
    settings: ProxySettings,
}

impl Default for LoadBalancerBuilder {
    fn default() -> (b: Self)
        ensures
            b.addr_spec() == DEFAULT_LISTEN_ADDR@,
            b.backends_spec().len() == 0,
            is_default_proxy_settings(b.settings_spec()),
    {
        LoadBalancerBuilder::new()
    }
}

/// The backend addresses as character sequences.
pub open spec fn addresses_view(v: Seq<String>) -> Seq<Seq<char>> {
    v.map_values(|s: String| s@)
}

impl LoadBalancerBuilder {
    /// The listen address.
    pub closed spec fn addr_spec(&self) -> Seq<char> {
        self.addr@
    }

    /// The backend addresses, in order.
    pub closed spec fn backends_spec(&self) -> Seq<Seq<char>> {
        addresses_view(self.backends@)
    }

    /// The proxy settings.
    pub closed spec fn settings_spec(&self) -> ProxySettings {
        self.settings
    }

    /// A builder listening on `0.0.0.0:3000`, without backends, with the
    /// default proxy settings.
    pub fn new() -> (b: Self)
        ensures
            b.addr_spec() == DEFAULT_LISTEN_ADDR@,
            b.backends_spec().len() == 0,
            is_default_proxy_settings(b.settings_spec()),
    {
        let b = LoadBalancerBuilder {
            addr: DEFAULT_LISTEN_ADDR.to_string(),
            backends: Vec::new(),
            settings: default_proxy_settings(),
        };
        assert(addresses_view(b.backends@) =~= Seq::<Seq<char>>::empty());
        b
    }

    /// Sets the address to listen on.
    pub fn listen(self, addr: &str) -> (b: Self)
        ensures
            b.addr_spec() == addr@,
            b.backends_spec() == self.backends_spec(),
            b.settings_spec() == self.settings_spec(),
    {
        let mut b = self;
        b.addr = addr.to_string();
        b
    }

    /// Adds a backend by address.
    pub fn backend(self, address: &str) -> (b: Self)
        ensures
            b.addr_spec() == self.addr_spec(),
            b.backends_spec() == self.backends_spec().push(address@),
            b.settings_spec() == self.settings_spec(),
    {
        let mut b = self;
        let ghost before = b.backends@;
        b.backends.push(address.to_string());
        assert(addresses_view(b.backends@) =~= addresses_view(before).push(address@));
        b
    }

    /// Adds several backends, in order.
    pub fn backends(self, addresses: &[&str]) -> (b: Self)
        ensures
            b.addr_spec() == self.addr_spec(),
            b.backends_spec() == self.backends_spec() + addresses@.map_values(|a: &str| a@),
            b.settings_spec() == self.settings_spec(),
    {
        let mut b = self;
        let mut i: usize = 0;
        while i < addresses.len()
            invariant
                0 <= i <= addresses@.len(),
                b.addr_spec() == self.addr_spec(),
                b.settings_spec() == self.settings_spec(),
                b.backends_spec() == self.backends_spec() + addresses@.take(i as int).map_values(
                    |a: &str| a@,
                ),
            decreases addresses@.len() - i,
        {
            b = b.backend(addresses[i]);
            i = i + 1;
            assert(addresses@.take(i as int).map_values(|a: &str| a@) =~= addresses@.take(
                i - 1,
            ).map_values(|a: &str| a@).push(addresses@[i - 1]@));
            assert(self.backends_spec() + addresses@.take(i as int).map_values(|a: &str| a@)
                =~= (self.backends_spec() + addresses@.take(i - 1).map_values(|a: &str| a@)).push(
                addresses@[i - 1]@,
            ));
        }
        assert(addresses@.take(addresses@.len() as int) =~= addresses@);
        b
    }

    /// Sets the load balancing strategy.
    pub fn strategy(self, strategy: LoadBalanceStrategy) -> (b: Self)
        ensures
            b.addr_spec() == self.addr_spec(),
            b.backends_spec() == self.backends_spec(),
            b.settings_spec() == (ProxySettings { strategy, ..self.settings_spec() }),
    {
        let mut b = self;
        b.settings.strategy = strategy;
        b
    }

    /// Checks backends over HTTP at `path`, with the default timing.
    pub fn health_check_path(self, path: &str) -> (b: Self)
        ensures
            b.addr_spec() == self.addr_spec(),
            b.backends_spec() == self.backends_spec(),
            b.settings_spec().strategy == self.settings_spec().strategy,
            b.settings_spec().request_timeout == self.settings_spec().request_timeout,
            b.settings_spec().max_connections_per_backend == self.settings_spec().max_connections_per_backend,
            b.settings_spec().pool_idle_timeout == self.settings_spec().pool_idle_timeout,
            b.settings_spec().tcp_keepalive == self.settings_spec().tcp_keepalive,
            b.settings_spec().http2_only == self.settings_spec().http2_only,
            b.settings_spec().health_check matches Some(c) && default_settings(c) && is_http_check_of(
                c,
                path@,
            ),
    {
        let mut b = self;
        b.settings.health_check = Some(HealthCheckConfig::http(path));
        b
    }

    /// Sets the health checks; `None` disables them.
    pub fn health_check(self, config: Option<HealthCheckConfig>) -> (b: Self)
        ensures
            b.addr_spec() == self.addr_spec(),
            b.backends_spec() == self.backends_spec(),
            b.settings_spec() == (ProxySettings { health_check: config, ..self.settings_spec() }),
    {
        let mut b = self;
        b.settings.health_check = config;
        b
    }

    /// Sets the request timeout.
    pub fn request_timeout(self, timeout: Duration) -> (b: Self)
        ensures
            b.addr_spec() == self.addr_spec(),
            b.backends_spec() == self.backends_spec(),
            b.settings_spec() == (ProxySettings { request_timeout: timeout, ..self.settings_spec() }),
    {
        let mut b = self;
        b.settings.request_timeout = timeout;
        b
    }

    /// Sets the connections kept per backend.
    pub fn max_connections_per_backend(self, max: usize) -> (b: Self)
        ensures
            b.addr_spec() == self.addr_spec(),
            b.backends_spec() == self.backends_spec(),
            b.settings_spec() == (ProxySettings { max_connections_per_backend: max, ..self.settings_spec() }),
    {
        let mut b = self;
        b.settings.max_connections_per_backend = max;
        b
    }

    /// Sets the idle timeout of pooled connections.
    pub fn pool_idle_timeout(self, timeout: Duration) -> (b: Self)
        ensures
            b.addr_spec() == self.addr_spec(),
            b.backends_spec() == self.backends_spec(),
            b.settings_spec() == (ProxySettings { pool_idle_timeout: timeout, ..self.settings_spec() }),
    {
        let mut b = self;
        b.settings.pool_idle_timeout = timeout;
        b
    }

    /// Sets the TCP keepalive interval.
    pub fn tcp_keepalive(self, interval: Duration) -> (b: Self)
        ensures
            b.addr_spec() == self.addr_spec(),
            b.backends_spec() == self.backends_spec(),
            b.settings_spec() == (ProxySettings { tcp_keepalive: interval, ..self.settings_spec() }),
    {
        let mut b = self;
        b.settings.tcp_keepalive = interval;
        b
    }

    /// Speaks HTTP/2 only, to clients and backends, when enabled.
    pub fn http2_only(self, enabled: bool) -> (b: Self)
        ensures
            b.addr_spec() == self.addr_spec(),
            b.backends_spec() == self.backends_spec(),
            b.settings_spec() == (ProxySettings { http2_only: enabled, ..self.settings_spec() }),
    {
        let mut b = self;
        b.settings.http2_only = enabled;
        b
    }

    /// Builds the load balancer: refused without backends; each address
    /// becomes an HTTP backend of the proxy, which is built with these
    /// settings (creating its HTTP client may fail, depending on the
    /// machine).
    pub fn build(self) -> (r: Result<LoadBalancer, LbBuildError>)
        ensures
            r == Err::<LoadBalancer, LbBuildError>(LbBuildError::NoBackends) <==> self.backends_spec().len() == 0,
            r matches Err(e) ==> e == LbBuildError::NoBackends || e == LbBuildError::HttpClient,
            r matches Ok(lb) ==> {
                let p = lb.proxy_spec();
                &&& lb.addr_spec() == self.addr_spec()
                &&& lb.http2_spec() == self.settings_spec().http2_only
                &&& p.wf()
                &&& p.backends_spec().len() == self.backends_spec().len()
                &&& forall|i: int| 0 <= i < p.backends_spec().len() ==> {
                    let b = #[trigger] p.backends_spec()[i];
                    &&& b is Http
                    &&& b.id_spec() == self.backends_spec()[i]
                    &&& b.breaker() is None
                    &&& b.stats() == fresh_stats(1, DEFAULT_MAX_CONNECTIONS)
                }
                &&& p.health_check_spec() == self.settings_spec().health_check
                &&& p.request_timeout_spec() == self.settings_spec().request_timeout
                &&& p.selector_spec().counter() == 0
                &&& p.selector_spec().total_spec() == self.backends_spec().len()
            },
    {
        if self.backends.len() == 0 {
            return Err(LbBuildError::NoBackends);
        }
        let LoadBalancerBuilder { addr, backends, settings } = self;
        let mut list: Vec<Backend> = Vec::new();
        let mut i: usize = 0;
        while i < backends.len()
            invariant
                0 <= i <= backends@.len(),
                list@.len() == i,
                forall|k: int| 0 <= k < i ==> {
                    let b = #[trigger] list@[k];
                    &&& b is Http
                    &&& b.wf()
                    &&& b.id_spec() == backends@[k]@
                    &&& b.breaker() is None
                    &&& b.stats() == fresh_stats(1, DEFAULT_MAX_CONNECTIONS)
                },
            decreases backends@.len() - i,
        {
            list.push(Backend::http(backends[i].as_str()));
            i = i + 1;
        }
        let http2_only = settings.http2_only;
        let proxy = match ProxyBuilder::with_settings(list, settings).build() {
            Ok(p) => p,
            Err(e) => {
                return Err(e);
            },
        };
        Ok(LoadBalancer::with_http2(proxy, addr.as_str(), http2_only))
    }
}

} // verus!
