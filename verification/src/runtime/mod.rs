//! Per-request runtime bookkeeping: timers, abort signals, stream
//! resources, fetch abort state and the host environment seen by scripts.

pub mod timers;
pub mod stream;
pub mod types;
pub mod fetch;
pub mod env;
pub mod node_fs;
pub mod zlib;
pub mod request;
pub mod url;
pub mod buffer;
pub mod response;
