//! Runtime logic of the mik WASI HTTP host, with machine-checked contracts.

pub mod constants;
pub mod runtime;
pub mod text;
pub mod time;
pub mod paths;
pub mod manifest;
pub mod utils;
pub mod failures;
