//! Cryptography: the `node:crypto` operations and WebCrypto's `subtle`
//! interface, over the primitives of outside crates.

pub mod primitives;
pub mod node;
pub mod cipher;
pub mod keys;
pub mod curves;
pub mod ecdsa;
pub mod subtle;
pub mod webcrypto;
