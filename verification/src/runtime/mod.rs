//! The WASI HTTP runtime: request model, security checks, tracing and load balancing.

pub mod security;
pub mod trace_context;
pub mod request;
pub mod host_config;
pub mod builder;
pub mod spans;
pub mod types;
pub mod error;
pub mod observability;
pub mod endpoints;
pub mod compression;
pub mod aot_cache;
pub mod script;
pub mod schema_handler;
pub mod request_handler;
pub mod module_loader;
pub mod module_load;
pub mod address;
pub mod lb;
pub mod cluster;
pub mod server;
