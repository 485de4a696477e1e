//! Common types for health checks, error categorization and memory statistics.

use vstd::prelude::*;

verus! {

/// Error category for observability.
#[derive(Debug, Clone, Copy, PartialEq, Eq, Structural)]
pub enum ErrorCategory {
    /// Module not found or failed to load.
    ModuleLoad,
    /// Invalid request (routing, path, etc).
    InvalidRequest,
    /// Component instantiation failed.
    Instantiation,
    /// Handler execution failed.
    Execution,
    /// Static file serving error.
    StaticFile,
    /// Execution timeout.
    Timeout,
    /// Script execution error.
    Script,
    /// Reliability error (circuit breaker, rate limit).
    Reliability,
    /// Internal server error.
    Internal,
}

impl ErrorCategory {
    /// The snake_case name of the category.
    pub open spec fn name(self) -> Seq<char> {
        match self {
            ErrorCategory::ModuleLoad => "module_load"@,
            ErrorCategory::InvalidRequest => "invalid_request"@,
            ErrorCategory::Instantiation => "instantiation"@,
            ErrorCategory::Execution => "execution"@,
            ErrorCategory::StaticFile => "static_file"@,
            ErrorCategory::Timeout => "timeout"@,
            ErrorCategory::Script => "script"@,
            ErrorCategory::Reliability => "reliability"@,
            ErrorCategory::Internal => "internal"@,
        }
    }

    /// The snake_case name, e.g. `module_load`.
    pub fn to_string(&self) -> (s: String)
        ensures
            s@ == self.name(),
    {
        match self {
            ErrorCategory::ModuleLoad => "module_load".to_string(),
            ErrorCategory::InvalidRequest => "invalid_request".to_string(),
            ErrorCategory::Instantiation => "instantiation".to_string(),
            ErrorCategory::Execution => "execution".to_string(),
            ErrorCategory::StaticFile => "static_file".to_string(),
            ErrorCategory::Timeout => "timeout".to_string(),
            ErrorCategory::Script => "script".to_string(),
            ErrorCategory::Reliability => "reliability".to_string(),
            ErrorCategory::Internal => "internal".to_string(),
        }
    }
}

/// Level of detail for health check responses.
#[derive(Debug, Clone, Copy, PartialEq, Eq, Structural)]
pub enum HealthDetail {
    /// Summary only - minimal allocation, fast response.
    Summary,
    /// Full details including list of loaded modules.
    Full,
}

impl Default for HealthDetail {
    fn default() -> (d: Self)
        ensures
            d == HealthDetail::Summary,
    {
        HealthDetail::Summary
    }
}

/// Health status response.
#[derive(Debug)]
pub struct HealthStatus {
    /// Overall status.
    pub status: String,
    /// Timestamp of the health check.
    pub timestamp: String,
    /// Number of modules currently in cache.
    pub cache_size: usize,
    /// Maximum cache capacity (entries).
    pub cache_capacity: usize,
    /// Current cache memory usage (bytes).
    pub cache_bytes: usize,
    /// Maximum cache memory (bytes).
    pub cache_max_bytes: usize,
    /// Total requests handled.
    pub total_requests: u64,
    /// Memory statistics.
    pub memory: MemoryStats,
    /// List of loaded modules (only with full detail).
    pub loaded_modules: Option<Vec<String>>,
}

/// Memory statistics for health check.
#[derive(Debug)]
pub struct MemoryStats {
    /// Allocated memory (if available).
    pub allocated_bytes: Option<usize>,
    /// Memory limit per request.
    pub limit_per_request_bytes: usize,
}

} // verus!
