//! Host configuration and its validation.

use crate::constants::{
    DEFAULT_CACHE_MB, DEFAULT_CACHE_SIZE, DEFAULT_MAX_CONCURRENT_REQUESTS,
    DEFAULT_MAX_PER_MODULE_REQUESTS, DEFAULT_MODULES_DIR, DEFAULT_PORT, MAX_BODY_SIZE_BYTES,
    MAX_WASM_TIMEOUT_SECS,
};
use crate::paths::{path_buf_from, path_of};
use crate::text::{decimal, push_str, u64_to_decimal};
use std::path::PathBuf;
use vstd::prelude::*;

verus! {

broadcast use vstd::string::group_string_axioms;

/// Maximum execution timeout (5 minutes).
pub const MAX_EXECUTION_TIMEOUT_SECS: u64 = 300;

/// Default memory limit per request (128MB).
pub const DEFAULT_MEMORY_LIMIT_BYTES: usize = 134217728;

/// Minimum memory limit per request (1MB).
pub const MIN_MEMORY_LIMIT_BYTES: usize = 1048576;

/// Maximum memory limit per request (4GB); a `u64`, as it need not fit a
/// 32-bit `usize`.
pub const MAX_MEMORY_LIMIT_BYTES: u64 = 4294967296;

/// Default graceful shutdown drain timeout in seconds.
pub const DEFAULT_SHUTDOWN_TIMEOUT_SECS: u64 = 30;

/// Configuration validation errors: values that would keep the host from
/// operating correctly or safely.
#[derive(Debug, Clone, PartialEq, Eq)]
pub enum ConfigError {
    /// The execution timeout is out of range.
    Timeout { value: u64, reason: &'static str },
    /// The per-request memory limit is out of range.
    MemoryLimit { value: usize, reason: &'static str },
    /// The concurrency limits are inconsistent.
    Concurrency { reason: &'static str },
}

/// The message of a configuration error.
pub open spec fn config_error_message(e: ConfigError) -> Seq<char> {
    match e {
        ConfigError::Timeout { value, reason } => "invalid execution_timeout_secs="@ + decimal(
            value as nat,
        ) + ": "@ + reason@,
        ConfigError::MemoryLimit { value, reason } => "invalid memory_limit_bytes="@ + decimal(
            value as nat,
        ) + ": "@ + reason@,
        ConfigError::Concurrency { reason } => "invalid concurrency configuration: "@ + reason@,
    }
}

impl ConfigError {
    /// The error message, e.g. `invalid execution_timeout_secs=0: must be greater than 0`.
    pub fn to_string(&self) -> (s: String)
        ensures
            s@ == config_error_message(*self),
    {
        let mut s = String::new();
        match self {
            ConfigError::Timeout { value, reason } => {
                push_str(&mut s, "invalid execution_timeout_secs=");
                let v = u64_to_decimal(*value);
                push_str(&mut s, v.as_str());
                push_str(&mut s, ": ");
                push_str(&mut s, reason);
            },
            ConfigError::MemoryLimit { value, reason } => {
                push_str(&mut s, "invalid memory_limit_bytes=");
                let v = u64_to_decimal(*value as u64);
                push_str(&mut s, v.as_str());
                push_str(&mut s, ": ");
                push_str(&mut s, reason);
            },
            ConfigError::Concurrency { reason } => {
                push_str(&mut s, "invalid concurrency configuration: ");
                push_str(&mut s, reason);
            },
        }
        s
    }
}

/// Configuration for the host.
#[derive(Debug, Clone)]
pub struct HostConfig {
    /// Directory containing .wasm modules, or single component path.
    pub modules_path: PathBuf,
    /// Maximum number of modules to keep loaded (LRU eviction).
    pub cache_size: usize,
    /// Maximum cache memory in bytes (byte-aware eviction).
    pub max_cache_bytes: usize,
    /// Static files directory (optional).
    pub static_dir: Option<PathBuf>,
    /// Port to bind to (from mik.toml).
    pub port: u16,
    /// Timeout for WASM execution (in seconds).
    pub execution_timeout_secs: u64,
    /// Memory limit per request (in bytes).
    pub memory_limit_bytes: usize,
    /// Maximum concurrent requests.
    pub max_concurrent_requests: usize,
    /// Maximum request body size (in bytes).
    pub max_body_size_bytes: usize,
    /// Maximum concurrent requests per module.
    pub max_per_module_requests: usize,
    /// Graceful shutdown drain timeout in seconds.
    pub shutdown_timeout_secs: u64,
    /// Enable wasi:logging for WASM modules.
    pub logging_enabled: bool,
    /// Allowed hosts for outgoing HTTP requests.
    pub http_allowed: Vec<String>,
    /// Scripts directory (optional, for JS orchestration).
    pub scripts_dir: Option<PathBuf>,
    /// Hot-reload mode: bypass persistent AOT cache, always recompile.
    pub hot_reload: bool,
    /// Maximum AOT cache size in MB (0 = default 1GB).
    pub aot_cache_max_mb: usize,
    /// Fuel budget per request (None = the runtime's default budget).
    pub fuel_budget: Option<u64>,
}

/// The default host configuration.
pub open spec fn is_default_host_config(c: HostConfig) -> bool {
    &&& c.modules_path == path_of(DEFAULT_MODULES_DIR@)
    &&& c.cache_size == DEFAULT_CACHE_SIZE
    &&& c.max_cache_bytes == DEFAULT_CACHE_MB * 1048576
    &&& c.static_dir is None
    &&& c.port == DEFAULT_PORT
    &&& c.execution_timeout_secs == MAX_WASM_TIMEOUT_SECS
    &&& c.memory_limit_bytes == DEFAULT_MEMORY_LIMIT_BYTES
    &&& c.max_concurrent_requests == DEFAULT_MAX_CONCURRENT_REQUESTS
    &&& c.max_body_size_bytes == MAX_BODY_SIZE_BYTES
    &&& c.max_per_module_requests == DEFAULT_MAX_PER_MODULE_REQUESTS
    &&& c.shutdown_timeout_secs == DEFAULT_SHUTDOWN_TIMEOUT_SECS
    &&& !c.logging_enabled
    &&& c.http_allowed@.len() == 0
    &&& c.scripts_dir is None
    &&& !c.hot_reload
    &&& c.aot_cache_max_mb == 0
    &&& c.fuel_budget is None
}

impl Default for HostConfig {
    fn default() -> (c: Self)
        ensures
            is_default_host_config(c),
    {
        HostConfig {
            modules_path: path_buf_from(DEFAULT_MODULES_DIR),
            cache_size: DEFAULT_CACHE_SIZE,
            max_cache_bytes: DEFAULT_CACHE_MB * 1024 * 1024,
            static_dir: None,
            port: DEFAULT_PORT,
            execution_timeout_secs: MAX_WASM_TIMEOUT_SECS,
            memory_limit_bytes: DEFAULT_MEMORY_LIMIT_BYTES,
            max_concurrent_requests: DEFAULT_MAX_CONCURRENT_REQUESTS,
            max_body_size_bytes: MAX_BODY_SIZE_BYTES,
            max_per_module_requests: DEFAULT_MAX_PER_MODULE_REQUESTS,
            shutdown_timeout_secs: DEFAULT_SHUTDOWN_TIMEOUT_SECS,
            logging_enabled: false,
            http_allowed: Vec::new(),
            scripts_dir: None,
            hot_reload: false,
            aot_cache_max_mb: 0,
            fuel_budget: None,
        }
    }
}

/// The first rule that a configuration breaks, in the order they are
/// checked; `None` when it breaks none.
pub open spec fn config_violation(c: HostConfig) -> Option<ConfigError> {
    if c.execution_timeout_secs == 0 {
        Some(ConfigError::Timeout { value: 0, reason: "must be greater than 0" })
    } else if c.execution_timeout_secs > MAX_EXECUTION_TIMEOUT_SECS {
        Some(
            ConfigError::Timeout {
                value: c.execution_timeout_secs,
                reason: "must be <= 300 seconds (5 minutes)",
            },
        )
    } else if c.memory_limit_bytes < MIN_MEMORY_LIMIT_BYTES {
        Some(
            ConfigError::MemoryLimit {
                value: c.memory_limit_bytes,
                reason: "must be >= 1MB (1048576 bytes)",
            },
        )
    } else if c.memory_limit_bytes as u64 > MAX_MEMORY_LIMIT_BYTES {
        Some(
            ConfigError::MemoryLimit {
                value: c.memory_limit_bytes,
                reason: "must be <= 4GB (4294967296 bytes)",
            },
        )
    } else if c.max_concurrent_requests == 0 {
        Some(ConfigError::Concurrency { reason: "max_concurrent_requests must be greater than 0" })
    } else if c.max_per_module_requests > c.max_concurrent_requests {
        Some(
            ConfigError::Concurrency {
                reason: "max_per_module_requests cannot exceed max_concurrent_requests",
            },
        )
    } else {
        None
    }
}

impl HostConfig {
    /// Checks that the configuration values are within bounds:
    /// `execution_timeout_secs` in 1..=300, `memory_limit_bytes` between 1MB
    /// and 4GB, `max_concurrent_requests` positive, and
    /// `max_per_module_requests` not above it.
    pub fn validate(&self) -> (r: Result<(), ConfigError>)
        ensures
            match config_violation(*self) {
                Some(e) => r == Err::<(), ConfigError>(e),
                None => r is Ok,
            },
    {
        if self.execution_timeout_secs == 0 {
            return Err(ConfigError::Timeout { value: 0, reason: "must be greater than 0" });
        }
        if self.execution_timeout_secs > MAX_EXECUTION_TIMEOUT_SECS {
            return Err(
                ConfigError::Timeout {
                    value: self.execution_timeout_secs,
                    reason: "must be <= 300 seconds (5 minutes)",
                },
            );
        }
        if self.memory_limit_bytes < MIN_MEMORY_LIMIT_BYTES {
            return Err(
                ConfigError::MemoryLimit {
                    value: self.memory_limit_bytes,
                    reason: "must be >= 1MB (1048576 bytes)",
                },
            );
        }
        if self.memory_limit_bytes as u64 > MAX_MEMORY_LIMIT_BYTES {
            return Err(
                ConfigError::MemoryLimit {
                    value: self.memory_limit_bytes,
                    reason: "must be <= 4GB (4294967296 bytes)",
                },
            );
        }
        if self.max_concurrent_requests == 0 {
            return Err(
                ConfigError::Concurrency { reason: "max_concurrent_requests must be greater than 0" },
            );
        }
        if self.max_per_module_requests > self.max_concurrent_requests {
            return Err(
                ConfigError::Concurrency {
                    reason: "max_per_module_requests cannot exceed max_concurrent_requests",
                },
            );
        }
        Ok(())
    }
}

/// The default configuration passes validation.
pub proof fn lemma_default_config_is_valid(c: HostConfig)
    requires
        is_default_host_config(c),
    ensures
        config_violation(c) is None,
{
}

} // verus!
