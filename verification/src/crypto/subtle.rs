//! `crypto.subtle`: of WebCrypto's operations only `digest` is provided
//! here (SHA-256, SHA-384, SHA-512); the others answer `NotSupported`.

use vstd::prelude::*;
use vstd::string::StringExecFns;
use crate::text::{str_eq, to_uppercase, upper_text};
use crate::crypto::keys::{CryptoError, CryptoKey, KeyUsage};
use crate::crypto::primitives::{sha256_of, sha384_of, sha512_of, sha256_digest, sha384_digest, sha512_digest};

verus! {

/// The stateless `crypto.subtle` namespace.
pub struct SubtleCrypto;

/// The digest `subtle.digest` computes for an algorithm whose uppercase is
/// `name`, or `None` for an unsupported algorithm.
pub open spec fn subtle_digest_of(name: Seq<char>, data: Seq<u8>) -> Option<Seq<u8>> {
    if name == "SHA-256"@ || name == "SHA256"@ {
        Some(sha256_of(data))
    } else if name == "SHA-384"@ || name == "SHA384"@ {
        Some(sha384_of(data))
    } else if name == "SHA-512"@ || name == "SHA512"@ {
        Some(sha512_of(data))
    } else {
        None
    }
}

impl SubtleCrypto {
    /// `generateKey`: not supported.
    pub fn generate_key(algorithm: &str, extractable: bool, usages: Vec<KeyUsage>) -> (r: Result<CryptoKey, CryptoError>)
        ensures
            r is Err && r->Err_0 is NotSupported,
    {
        Err(CryptoError::NotSupported)
    }

    /// `importKey`: not supported.
    pub fn import_key(
        format: &str,
        key_data: &[u8],
        algorithm: &str,
        extractable: bool,
        usages: Vec<KeyUsage>,
    ) -> (r: Result<CryptoKey, CryptoError>)
        ensures
            r is Err && r->Err_0 is NotSupported,
    {
        Err(CryptoError::NotSupported)
    }

    /// `exportKey`: not supported.
    pub fn export_key(format: &str, key: &CryptoKey) -> (r: Result<Vec<u8>, CryptoError>)
        ensures
            r is Err && r->Err_0 is NotSupported,
    {
        Err(CryptoError::NotSupported)
    }

    /// `encrypt`: not supported.
    pub fn encrypt(algorithm: &str, key: &CryptoKey, data: &[u8]) -> (r: Result<Vec<u8>, CryptoError>)
        ensures
            r is Err && r->Err_0 is NotSupported,
    {
        Err(CryptoError::NotSupported)
    }

    /// `decrypt`: not supported.
    pub fn decrypt(algorithm: &str, key: &CryptoKey, data: &[u8]) -> (r: Result<Vec<u8>, CryptoError>)
        ensures
            r is Err && r->Err_0 is NotSupported,
    {
        Err(CryptoError::NotSupported)
    }

    /// `sign`: not supported.
    pub fn sign(algorithm: &str, key: &CryptoKey, data: &[u8]) -> (r: Result<Vec<u8>, CryptoError>)
        ensures
            r is Err && r->Err_0 is NotSupported,
    {
        Err(CryptoError::NotSupported)
    }

    /// `verify`: not supported.
    pub fn verify(algorithm: &str, key: &CryptoKey, signature: &[u8], data: &[u8]) -> (r: Result<bool, CryptoError>)
        ensures
            r is Err && r->Err_0 is NotSupported,
    {
        Err(CryptoError::NotSupported)
    }

    /// `digest`: SHA-256, SHA-384 or SHA-512, the name compared after
    /// uppercasing, with or without the hyphen; any other name is an invalid
    /// algorithm.
    pub fn digest(algorithm: &str, data: &[u8]) -> (r: Result<Vec<u8>, CryptoError>)
        ensures
            match subtle_digest_of(upper_text(algorithm@), data@) {
                Some(d) => r is Ok && r->Ok_0@ == d,
                None => r is Err && r->Err_0 is InvalidAlgorithm
                    && r->Err_0->InvalidAlgorithm_0@ == "Digest algorithm: "@ + algorithm@,
            },
    {
        let normalized = to_uppercase(algorithm);
        let n = normalized.as_str();
        if str_eq(n, "SHA-256") || str_eq(n, "SHA256") {
            Ok(sha256_digest(data))
        } else if str_eq(n, "SHA-384") || str_eq(n, "SHA384") {
            Ok(sha384_digest(data))
        } else if str_eq(n, "SHA-512") || str_eq(n, "SHA512") {
            Ok(sha512_digest(data))
        } else {
            let mut m = String::from_str("Digest algorithm: ");
            m.append(algorithm);
            Err(CryptoError::InvalidAlgorithm(m))
        }
    }

    /// `deriveKey`: not supported.
    pub fn derive_key(
        algorithm: &str,
        base_key: &CryptoKey,
        derived_key_algorithm: &str,
        extractable: bool,
        usages: Vec<KeyUsage>,
    ) -> (r: Result<CryptoKey, CryptoError>)
        ensures
            r is Err && r->Err_0 is NotSupported,
    {
        Err(CryptoError::NotSupported)
    }

    /// `deriveBits`: not supported.
    pub fn derive_bits(algorithm: &str, base_key: &CryptoKey, length: u32) -> (r: Result<Vec<u8>, CryptoError>)
        ensures
            r is Err && r->Err_0 is NotSupported,
    {
        Err(CryptoError::NotSupported)
    }

    /// `wrapKey`: not supported.
    pub fn wrap_key(
        format: &str,
        key: &CryptoKey,
        wrapping_key: &CryptoKey,
        wrap_algorithm: &str,
    ) -> (r: Result<Vec<u8>, CryptoError>)
        ensures
            r is Err && r->Err_0 is NotSupported,
    {
        Err(CryptoError::NotSupported)
    }

    /// `unwrapKey`: not supported.
    pub fn unwrap_key(
        format: &str,
        wrapped_key: &[u8],
        unwrapping_key: &CryptoKey,
        unwrap_algorithm: &str,
        unwrapped_key_algorithm: &str,
        extractable: bool,
        usages: Vec<KeyUsage>,
    ) -> (r: Result<CryptoKey, CryptoError>)
        ensures
            r is Err && r->Err_0 is NotSupported,
    {
        Err(CryptoError::NotSupported)
    }
}

} // verus!
