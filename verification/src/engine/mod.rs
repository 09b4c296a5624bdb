//! State kept around the JavaScript engine: the startup snapshot and the
//! errors of platform start-up.

pub mod snapshot;
pub mod platform;
