//! L7 load balancer: backends, their health and circuit breakers, the
//! selection of a backend for each request, and the proxy and load
//! balancer built from their settings.

pub mod circuit_breaker;
pub mod backend;
pub mod selection;
pub mod proxy;
pub mod health;
pub mod metrics;
pub mod reload;
pub mod server;
pub mod config;

pub use config::LoadBalancerConfig;
pub use proxy::{Proxy, ProxyBuilder};
pub use server::{LoadBalancer, LoadBalancerBuilder};
