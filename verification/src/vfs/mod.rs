//! Virtual file system: validated paths, an in-memory backend with quotas,
//! namespaced views for isolates, and the security layer.

pub mod types;
pub mod security;
pub mod store;
pub mod memory;
pub mod isolate;
pub mod filesystem;
