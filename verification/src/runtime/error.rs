//! Structured runtime errors: their messages and the HTTP status each maps to.

use crate::failures::io_error_text;
use crate::paths::path_buf_from;
use crate::text::{decimal, push_decimal, push_str};
use std::path::PathBuf;
use vstd::prelude::*;

verus! {

broadcast use vstd::string::group_string_axioms;

/// The `{:?}` text of a path (quoted, with escapes), a function of the path.
pub uninterp spec fn path_debug(p: PathBuf) -> Seq<char>;

/// `<PathBuf as Debug>::fmt` through `format!("{:?}")`: the text named
/// `path_debug(p)`.
#[verifier::external_body]
fn path_debug_text(p: &PathBuf) -> (s: String)
    ensures
        s@ == path_debug(*p),
{
    format!("{:?}", p)
}

/// Runtime errors with structured context.
#[derive(Debug)]
pub enum Error {
    /// Module not found in cache or filesystem.
    ModuleNotFound { name: String },
    /// Module failed to load (compile error, invalid WASM).
    ModuleLoadFailed { name: String, reason: String },
    /// Module execution timed out.
    ExecutionTimeout { name: String, timeout_secs: u64 },
    /// Circuit breaker is open (too many failures).
    CircuitBreakerOpen { name: String },
    /// Memory limit exceeded during execution.
    MemoryLimitExceeded { module: String, limit_bytes: usize },
    /// Rate limit exceeded.
    RateLimitExceeded { reason: String },
    /// Path traversal attempt detected.
    PathTraversal { path: PathBuf },
    /// Script execution error.
    ScriptError { name: String, reason: String },
    /// Script not found.
    ScriptNotFound { name: String },
    /// Configuration error.
    Config(String),
    /// IO error with context.
    Io { context: String, source: std::io::Error },
    /// HTTP error.
    Http(String),
    /// Invalid request.
    InvalidRequest(String),
}

/// The message of an error, given the text `io_text` of an I/O source.
pub open spec fn error_message(e: Error, io_text: Seq<char>) -> Seq<char> {
    match e {
        Error::ModuleNotFound { name } => "module not found: "@ + name@,
        Error::ModuleLoadFailed { name, reason } => "failed to load module '"@ + name@ + "': "@
            + reason@,
        Error::ExecutionTimeout { name, timeout_secs } => "module '"@ + name@ + "' timed out after "@
            + decimal(timeout_secs as nat) + "s"@,
        Error::CircuitBreakerOpen { name } => "circuit breaker open for module '"@ + name@ + "'"@,
        Error::MemoryLimitExceeded { module, limit_bytes } => "module '"@ + module@
            + "' exceeded memory limit of "@ + decimal(limit_bytes as nat) + " bytes"@,
        Error::RateLimitExceeded { reason } => "rate limit exceeded: "@ + reason@,
        Error::PathTraversal { path } => "path traversal blocked: "@ + path_debug(path),
        Error::ScriptError { name, reason } => "script '"@ + name@ + "' failed: "@ + reason@,
        Error::ScriptNotFound { name } => "script not found: "@ + name@,
        Error::Config(m) => "configuration error: "@ + m@,
        Error::Io { context, source } => "IO error in "@ + context@ + ": "@ + io_text,
        Error::Http(m) => "HTTP error: "@ + m@,
        Error::InvalidRequest(m) => "invalid request: "@ + m@,
    }
}

/// The HTTP status code for an error.
pub open spec fn status_of(e: Error) -> u16 {
    match e {
        Error::ModuleNotFound { .. } | Error::ScriptNotFound { .. } => 404,
        Error::PathTraversal { .. } | Error::InvalidRequest(_) => 400,
        Error::CircuitBreakerOpen { .. } => 503,
        Error::RateLimitExceeded { .. } => 429,
        Error::ExecutionTimeout { .. } => 504,
        Error::MemoryLimitExceeded { .. } => 507,
        _ => 500,
    }
}

impl Error {
    /// An I/O error with context.
    pub fn io(context: &str, source: std::io::Error) -> (e: Self)
        ensures
            e matches Error::Io { context: c, source: s } && c@ == context@ && s == source,
    {
        Error::Io { context: context.to_string(), source }
    }

    /// A module-not-found error.
    pub fn module_not_found(name: &str) -> (e: Self)
        ensures
            e matches Error::ModuleNotFound { name: n } && n@ == name@,
    {
        Error::ModuleNotFound { name: name.to_string() }
    }

    /// A module-load-failed error.
    pub fn module_load_failed(name: &str, reason: &str) -> (e: Self)
        ensures
            e matches Error::ModuleLoadFailed { name: n, reason: r } && n@ == name@ && r@ == reason@,
    {
        Error::ModuleLoadFailed { name: name.to_string(), reason: reason.to_string() }
    }

    /// A script error.
    pub fn script_error(name: &str, reason: &str) -> (e: Self)
        ensures
            e matches Error::ScriptError { name: n, reason: r } && n@ == name@ && r@ == reason@,
    {
        Error::ScriptError { name: name.to_string(), reason: reason.to_string() }
    }

    /// A circuit-breaker-open error.
    pub fn circuit_breaker_open(name: &str) -> (e: Self)
        ensures
            e matches Error::CircuitBreakerOpen { name: n } && n@ == name@,
    {
        Error::CircuitBreakerOpen { name: name.to_string() }
    }

    /// A rate-limit-exceeded error.
    pub fn rate_limit_exceeded(reason: &str) -> (e: Self)
        ensures
            e matches Error::RateLimitExceeded { reason: r } && r@ == reason@,
    {
        Error::RateLimitExceeded { reason: reason.to_string() }
    }

    /// A path-traversal error for the path built from `path`.
    pub fn path_traversal(path: &str) -> (e: Self)
        ensures
            e matches Error::PathTraversal { path: p } && p == crate::paths::path_of(path@),
    {
        Error::PathTraversal { path: path_buf_from(path) }
    }

    /// An execution-timeout error.
    pub fn execution_timeout(name: &str, timeout_secs: u64) -> (e: Self)
        ensures
            e matches Error::ExecutionTimeout { name: n, timeout_secs: t } && n@ == name@ && t
                == timeout_secs,
    {
        Error::ExecutionTimeout { name: name.to_string(), timeout_secs }
    }

    /// A memory-limit-exceeded error.
    pub fn memory_limit_exceeded(module: &str, limit_bytes: usize) -> (e: Self)
        ensures
            e matches Error::MemoryLimitExceeded { module: m, limit_bytes: l } && m@ == module@
                && l == limit_bytes,
    {
        Error::MemoryLimitExceeded { module: module.to_string(), limit_bytes }
    }

    /// The HTTP status code: 404 not found, 400 bad request, 503 open
    /// circuit, 429 rate limit, 504 timeout, 507 memory, 500 otherwise.
    pub fn status_code(&self) -> (s: u16)
        ensures
            s == status_of(*self),
    {
        match self {
            Error::ModuleNotFound { .. } | Error::ScriptNotFound { .. } => 404,
            Error::PathTraversal { .. } | Error::InvalidRequest(_) => 400,
            Error::CircuitBreakerOpen { .. } => 503,
            Error::RateLimitExceeded { .. } => 429,
            Error::ExecutionTimeout { .. } => 504,
            Error::MemoryLimitExceeded { .. } => 507,
            Error::ModuleLoadFailed { .. } | Error::ScriptError { .. } | Error::Config(_)
            | Error::Io { .. } | Error::Http(_) => 500,
        }
    }

    /// The error message, e.g. `module not found: api`.
    pub fn to_string(&self) -> (s: String)
        ensures
            exists|io_text: Seq<char>| s@ == error_message(*self, io_text),
            !(*self is Io) ==> s@ == error_message(*self, Seq::empty()),
    {
        let mut s = String::new();
        match self {
            Error::ModuleNotFound { name } => {
                push_str(&mut s, "module not found: ");
                push_str(&mut s, name.as_str());
            },
            Error::ModuleLoadFailed { name, reason } => {
                push_str(&mut s, "failed to load module '");
                push_str(&mut s, name.as_str());
                push_str(&mut s, "': ");
                push_str(&mut s, reason.as_str());
            },
            Error::ExecutionTimeout { name, timeout_secs } => {
                push_str(&mut s, "module '");
                push_str(&mut s, name.as_str());
                push_str(&mut s, "' timed out after ");
                push_decimal(&mut s, *timeout_secs);
                push_str(&mut s, "s");
            },
            Error::CircuitBreakerOpen { name } => {
                push_str(&mut s, "circuit breaker open for module '");
                push_str(&mut s, name.as_str());
                push_str(&mut s, "'");
            },
            Error::MemoryLimitExceeded { module, limit_bytes } => {
                push_str(&mut s, "module '");
                push_str(&mut s, module.as_str());
                push_str(&mut s, "' exceeded memory limit of ");
                push_decimal(&mut s, *limit_bytes as u64);
                push_str(&mut s, " bytes");
            },
            Error::RateLimitExceeded { reason } => {
                push_str(&mut s, "rate limit exceeded: ");
                push_str(&mut s, reason.as_str());
            },
            Error::PathTraversal { path } => {
                push_str(&mut s, "path traversal blocked: ");
                let p = path_debug_text(path);
                push_str(&mut s, p.as_str());
            },
            Error::ScriptError { name, reason } => {
                push_str(&mut s, "script '");
                push_str(&mut s, name.as_str());
                push_str(&mut s, "' failed: ");
                push_str(&mut s, reason.as_str());
            },
            Error::ScriptNotFound { name } => {
                push_str(&mut s, "script not found: ");
                push_str(&mut s, name.as_str());
            },
            Error::Config(m) => {
                push_str(&mut s, "configuration error: ");
                push_str(&mut s, m.as_str());
            },
            Error::Io { context, source } => {
                push_str(&mut s, "IO error in ");
                push_str(&mut s, context.as_str());
                push_str(&mut s, ": ");
                let t = io_error_text(source);
                push_str(&mut s, t.as_str());
                assert(s@ == error_message(*self, t@));
            },
            Error::Http(m) => {
                push_str(&mut s, "HTTP error: ");
                push_str(&mut s, m.as_str());
            },
            Error::InvalidRequest(m) => {
                push_str(&mut s, "invalid request: ");
                push_str(&mut s, m.as_str());
            },
        }
        proof {
            if !(*self is Io) {
                assert(s@ == error_message(*self, Seq::<char>::empty()));
            }
        }
        s
    }
}

} // verus!
