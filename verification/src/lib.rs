//! Verified core of a multi-tenant JavaScript edge runtime: the virtual file
//! system, the sliver snapshot format, runtime bookkeeping (timers, abort
//! signals, stream resources), Node-compatible host hooks and crypto glue.

pub mod text;
pub mod vfs;
pub mod sliver;
pub mod runtime;

pub mod wasm;
pub mod engine;
pub mod crypto;
