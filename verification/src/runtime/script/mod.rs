//! Script orchestration: scripts call WASM handlers through `host.call()`.
//!
//! Running JavaScript, reading script files and calling handlers are I/O
//! outside this module. Decided here: which script a path names, whether a
//! body is small enough, how handler calls are described to the handlers
//! and answered when they cannot run, and how a script run ends.

pub mod context;
pub mod orchestration;
