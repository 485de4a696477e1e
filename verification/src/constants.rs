//! Project-wide defaults and limits.

use vstd::prelude::*;

verus! {

/// Default HTTP port.
pub const DEFAULT_PORT: u16 = 3000;

/// Default directory holding WASM modules.
pub const DEFAULT_MODULES_DIR: &'static str = "modules";

/// Default number of modules kept in the module cache.
pub const DEFAULT_CACHE_SIZE: usize = 100;

/// Default module cache memory in MB.
pub const DEFAULT_CACHE_MB: usize = 256;

/// Longest allowed WASM execution, in seconds (also the default timeout).
pub const MAX_WASM_TIMEOUT_SECS: u64 = 30;

/// Default maximum of concurrent requests.
pub const DEFAULT_MAX_CONCURRENT_REQUESTS: usize = 1000;

/// Default maximum of concurrent requests per module.
pub const DEFAULT_MAX_PER_MODULE_REQUESTS: usize = 100;

/// Largest accepted request body, in bytes.
pub const MAX_BODY_SIZE_BYTES: usize = 10 * 1024 * 1024;

/// Consecutive failures that open a circuit breaker.
pub const CIRCUIT_BREAKER_FAILURE_THRESHOLD: u32 = 5;

/// Consecutive half-open successes that close a circuit breaker.
pub const CIRCUIT_BREAKER_SUCCESS_THRESHOLD: u32 = 2;

/// Seconds an open circuit breaker waits before it half-opens.
pub const CIRCUIT_BREAKER_TIMEOUT_SECS: u64 = 30;

/// Response bodies must be larger than this many bytes to be compressed.
pub const GZIP_MIN_SIZE: usize = 1024;

/// Longest accepted request path, in bytes.
pub const MAX_PATH_LENGTH: usize = 2048;

/// Status reported by a ready runtime.
pub const HEALTH_STATUS_READY: &'static str = "ready";

} // verus!
