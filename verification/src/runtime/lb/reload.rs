//! Types of graceful reload operations.

use crate::time::{duration_from_secs, instant_now, secs_duration};
use std::time::{Duration, Instant};
use vstd::prelude::*;

verus! {

/// Configuration for graceful reload operations.
#[derive(Debug, Clone)]
pub struct ReloadConfig {
    /// Longest wait for a backend to drain before it is removed (default 30 s).
    pub drain_timeout: Duration,
}

impl Default for ReloadConfig {
    fn default() -> (c: Self)
        ensures
            c.drain_timeout == secs_duration(30),
    {
        ReloadConfig { drain_timeout: duration_from_secs(30) }
    }
}

impl ReloadConfig {
    /// A reload configuration with the given drain timeout.
    pub fn with_drain_timeout(drain_timeout: Duration) -> (c: Self)
        ensures
            c.drain_timeout == drain_timeout,
    {
        ReloadConfig { drain_timeout }
    }
}

/// Signal payload for reload operations.
#[derive(Debug, Clone)]
pub struct ReloadSignal {
    /// New list of backend addresses.
    pub backends: Vec<String>,
    /// When the reload was requested.
    pub requested_at: Instant,
}

impl ReloadSignal {
    /// A reload signal for the given backend addresses, stamped now.
    pub fn new(backends: Vec<String>) -> (s: Self)
        ensures
            s.backends == backends,
    {
        ReloadSignal { backends, requested_at: instant_now() }
    }
}

/// Result of a reload operation.
#[derive(Debug, Clone)]
pub struct ReloadResult {
    /// Backend addresses that were added.
    pub added: Vec<String>,
    /// Backend addresses that are being drained.
    pub draining: Vec<String>,
    /// Backend addresses that remained unchanged.
    pub unchanged: Vec<String>,
}

impl ReloadResult {
    /// Whether any backend was added or is being drained.
    pub fn has_changes(&self) -> (b: bool)
        ensures
            b == (self.added@.len() > 0 || self.draining@.len() > 0),
    {
        self.added.len() > 0 || self.draining.len() > 0
    }
}

} // verus!
