//! The parts of the project manifest (`mik.toml`) that the runtime reads.

use crate::constants::{DEFAULT_MODULES_DIR, DEFAULT_PORT, MAX_BODY_SIZE_BYTES, MAX_WASM_TIMEOUT_SECS};
use crate::runtime::host_config::DEFAULT_SHUTDOWN_TIMEOUT_SECS;
use crate::text::push_str;
use vstd::prelude::*;

verus! {

/// The `[server]` section of the manifest. Limits of 0 mean "choose
/// automatically".
#[derive(Debug, Clone)]
pub struct ServerConfig {
    /// Size the caches and limits from the machine's resources.
    pub auto: bool,
    /// Port to listen on.
    pub port: u16,
    /// Modules directory or single component path.
    pub modules: String,
    /// Static files directory.
    pub static_dir: Option<String>,
    /// Module cache size (0 = automatic).
    pub cache_size: usize,
    /// Module cache memory in MB (0 = automatic).
    pub max_cache_mb: usize,
    /// WASM execution timeout in seconds.
    pub execution_timeout_secs: u64,
    /// Maximum concurrent requests (0 = automatic).
    pub max_concurrent_requests: usize,
    /// Maximum request body size in MB.
    pub max_body_size_mb: usize,
    /// Maximum concurrent requests per module (0 = automatic).
    pub max_per_module_requests: usize,
    /// Graceful shutdown drain timeout in seconds.
    pub shutdown_timeout_secs: u64,
    /// Enable wasi:logging for WASM modules.
    pub logging: bool,
    /// Allowed hosts for outgoing HTTP requests.
    pub http_allowed: Vec<String>,
    /// Scripts directory for JS orchestration.
    pub scripts: Option<String>,
}

/// Default request body limit in MB.
pub const DEFAULT_MAX_BODY_SIZE_MB: usize = MAX_BODY_SIZE_BYTES / 1048576;

impl Default for ServerConfig {
    fn default() -> (c: Self)
        ensures
            c.auto,
            c.port == DEFAULT_PORT,
            c.modules@ == DEFAULT_MODULES_DIR@ + "/"@,
            c.static_dir is None,
            c.cache_size == 0,
            c.max_cache_mb == 0,
            c.execution_timeout_secs == MAX_WASM_TIMEOUT_SECS,
            c.max_concurrent_requests == 0,
            c.max_body_size_mb == DEFAULT_MAX_BODY_SIZE_MB,
            c.max_per_module_requests == 0,
            c.shutdown_timeout_secs == DEFAULT_SHUTDOWN_TIMEOUT_SECS,
            !c.logging,
            c.http_allowed@.len() == 0,
            c.scripts is None,
    {
        let mut modules = String::new();
        push_str(&mut modules, DEFAULT_MODULES_DIR);
        push_str(&mut modules, "/");
        ServerConfig {
            auto: true,
            port: DEFAULT_PORT,
            modules,
            static_dir: None,
            cache_size: 0,
            max_cache_mb: 0,
            execution_timeout_secs: MAX_WASM_TIMEOUT_SECS,
            max_concurrent_requests: 0,
            max_body_size_mb: DEFAULT_MAX_BODY_SIZE_MB,
            max_per_module_requests: 0,
            shutdown_timeout_secs: DEFAULT_SHUTDOWN_TIMEOUT_SECS,
            logging: false,
            http_allowed: Vec::new(),
            scripts: None,
        }
    }
}

/// The `[lb]` section of the manifest: load balancer settings.
#[derive(Debug, Clone)]
pub struct LbConfig {
    /// Whether the load balancer is enabled.
    pub enabled: bool,
    /// Health check kind: `tcp` (any case) or anything else for HTTP.
    pub health_check_type: String,
    /// Interval between health checks in milliseconds.
    pub health_check_interval_ms: u64,
    /// Timeout of each health check in milliseconds.
    pub health_check_timeout_ms: u64,
    /// Path probed by HTTP health checks.
    pub health_check_path: String,
    /// Consecutive failures before a backend counts as unhealthy.
    pub unhealthy_threshold: u32,
    /// Consecutive successes before a backend counts as healthy.
    pub healthy_threshold: u32,
    /// Request timeout in seconds.
    pub request_timeout_secs: u64,
    /// Maximum concurrent requests per backend.
    pub max_connections_per_backend: usize,
    /// Idle time after which pooled connections close, in seconds.
    pub pool_idle_timeout_secs: u64,
    /// TCP keepalive interval in seconds.
    pub tcp_keepalive_secs: u64,
    /// Use HTTP/2 only (with prior knowledge) for backend connections.
    pub http2_only: bool,
}

impl Default for LbConfig {
    fn default() -> (c: Self)
        ensures
            !c.enabled,
            c.health_check_type@ == "http"@,
            c.health_check_interval_ms == 5000,
            c.health_check_timeout_ms == 2000,
            c.health_check_path@ == "/health"@,
            c.unhealthy_threshold == 3,
            c.healthy_threshold == 2,
            c.request_timeout_secs == 30,
            c.max_connections_per_backend == 100,
            c.pool_idle_timeout_secs == 90,
            c.tcp_keepalive_secs == 60,
            !c.http2_only,
    {
        LbConfig {
            enabled: false,
            health_check_type: "http".to_string(),
            health_check_interval_ms: 5000,
            health_check_timeout_ms: 2000,
            health_check_path: "/health".to_string(),
            unhealthy_threshold: 3,
            healthy_threshold: 2,
            request_timeout_secs: 30,
            max_connections_per_backend: 100,
            pool_idle_timeout_secs: 90,
            tcp_keepalive_secs: 60,
            http2_only: false,
        }
    }
}

/// The project manifest, as far as the runtime reads it.
#[derive(Debug, Clone)]
pub struct Manifest {
    /// The `[server]` section.
    pub server: ServerConfig,
}

impl Default for Manifest {
    fn default() -> (m: Self)
        ensures
            m.server.auto,
            m.server.port == DEFAULT_PORT,
    {
        Manifest { server: ServerConfig::default() }
    }
}

} // verus!
