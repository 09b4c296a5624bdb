//! What the `crypto.subtle` bindings decide before and after the key work:
//! which key `generateKey` is asked for, which importer `importKey` hands a
//! key to, and the properties of the `CryptoKey` object handed back to
//! scripts.

use vstd::prelude::*;
use vstd::string::StringExecFns;
use crate::text::str_eq;
use crate::crypto::keys::{
    CryptoError, algorithm_name, hash_name, hash_named, key_type_of, usage_name, AlgorithmIdentifier, CryptoKey,
    HashAlgorithm, KeyUsage,
};

verus! {

/// A key `generateKey` is asked for.
#[derive(Debug, Clone, Copy, PartialEq, Eq, Structural)]
pub enum KeyGenRequest {
    /// An AES-GCM key of `length` bits.
    AesGcm { length: u16 },
    /// An HMAC key for `hash`, of `length` bits where given.
    Hmac { hash: HashAlgorithm, length: Option<u32> },
}

/// The key asked for by an algorithm named `name` with the given `length`
/// and `hash` members, or `None` for an unsupported algorithm.
pub open spec fn key_gen_request_of(
    name: Seq<char>,
    aes_length: Option<u16>,
    hash: Seq<char>,
    hmac_length: Option<u32>,
) -> Option<KeyGenRequest> {
    if name == "AES-GCM"@ {
        Some(KeyGenRequest::AesGcm {
            length: match aes_length {
                Some(l) => l,
                None => 256,
            },
        })
    } else if name == "HMAC"@ {
        Some(KeyGenRequest::Hmac {
            hash: match hash_named(hash) {
                Some(h) => h,
                None => HashAlgorithm::Sha256,
            },
            length: match hmac_length {
                Some(l) => if l > 0 {
                    Some(l)
                } else {
                    None
                },
                None => None,
            },
        })
    } else {
        None
    }
}

/// `generateKey`'s reading of its algorithm: `AES-GCM` with `length`
/// (256 bits by default), or `HMAC` with `hash` (SHA-256 for an unknown or
/// missing name) and `length` (none where missing or 0); any other name is
/// refused with `Algorithm '<name>' not supported`.
pub fn key_gen_request(
    name: &str,
    aes_length: Option<u16>,
    hash: &str,
    hmac_length: Option<u32>,
) -> (r: Result<KeyGenRequest, String>)
    ensures
        match key_gen_request_of(name@, aes_length, hash@, hmac_length) {
            Some(k) => r == Ok::<KeyGenRequest, String>(k),
            None => r is Err && r->Err_0@ == "Algorithm '"@ + name@ + "' not supported"@,
        },
{
    if str_eq(name, "AES-GCM") {
        let length = match aes_length {
            Some(l) => l,
            None => 256,
        };
        Ok(KeyGenRequest::AesGcm { length })
    } else if str_eq(name, "HMAC") {
        let h = match HashAlgorithm::from_name(hash) {
            Some(h) => h,
            None => HashAlgorithm::Sha256,
        };
        let length = match hmac_length {
            Some(l) => if l > 0 {
                Some(l)
            } else {
                None
            },
            None => None,
        };
        Ok(KeyGenRequest::Hmac { hash: h, length })
    } else {
        let mut m = String::from_str("Algorithm '");
        m.append(name);
        m.append("' not supported");
        Err(m)
    }
}

/// The importer `importKey` hands a JWK key to.
#[derive(Debug, Clone, Copy, PartialEq, Eq, Structural)]
pub enum JwkImport {
    AesGcm,
    Hmac,
}

/// `importKey`'s choice of importer: only the `jwk` format is read, for the
/// `AES-GCM` and `HMAC` algorithms; another algorithm is invalid, naming
/// itself, and another format is not supported.
pub fn key_import_route(format: &str, algorithm: &str) -> (r: Result<JwkImport, CryptoError>)
    ensures
        format@ != "jwk"@ ==> r is Err && r->Err_0 is NotSupported,
        format@ == "jwk"@ && algorithm@ == "AES-GCM"@ ==> r == Ok::<JwkImport, CryptoError>(JwkImport::AesGcm),
        format@ == "jwk"@ && algorithm@ == "HMAC"@ ==> r == Ok::<JwkImport, CryptoError>(JwkImport::Hmac),
        format@ == "jwk"@ && algorithm@ != "AES-GCM"@ && algorithm@ != "HMAC"@ ==> r is Err
            && r->Err_0 is InvalidAlgorithm && r->Err_0->InvalidAlgorithm_0@ == algorithm@,
{
    proof {
        reveal_strlit("AES-GCM");
        reveal_strlit("HMAC");
        assert("AES-GCM"@[0] != "HMAC"@[0]);
    }
    if !str_eq(format, "jwk") {
        Err(CryptoError::NotSupported)
    } else if str_eq(algorithm, "AES-GCM") {
        Ok(JwkImport::AesGcm)
    } else if str_eq(algorithm, "HMAC") {
        Ok(JwkImport::Hmac)
    } else {
        Err(CryptoError::InvalidAlgorithm(algorithm.to_owned()))
    }
}

/// The properties of a `CryptoKey` object: `type`, `extractable`,
/// `algorithm.name`, `algorithm.length`, `algorithm.hash.name` and
/// `usages`.
#[derive(Debug)]
pub struct KeyDescription {
    pub key_type: &'static str,
    pub extractable: bool,
    pub algorithm_name: &'static str,
    pub length: Option<u32>,
    pub hash_name: Option<&'static str>,
    pub usages: Vec<&'static str>,
}

/// The `algorithm.length` of a key's algorithm, where it has one.
pub open spec fn algorithm_length(a: AlgorithmIdentifier) -> Option<u32> {
    match a {
        AlgorithmIdentifier::AesGcm { length } => Some(length as u32),
        AlgorithmIdentifier::Hmac { length, .. } => length,
        _ => None,
    }
}

/// The `algorithm.hash.name` of a key's algorithm, where it has one.
pub open spec fn algorithm_hash(a: AlgorithmIdentifier) -> Option<Seq<char>> {
    match a {
        AlgorithmIdentifier::Hmac { hash, .. } => Some(hash_name(hash)),
        _ => None,
    }
}

/// The view of an optional static string.
pub open spec fn opt_static(o: Option<&'static str>) -> Option<Seq<char>> {
    match o {
        Some(s) => Some(s@),
        None => None,
    }
}

/// The texts of static strings, in order.
pub open spec fn static_names(v: Seq<&'static str>) -> Seq<Seq<char>> {
    v.map_values(|s: &'static str| s@)
}

/// The names of the usages, in order.
pub open spec fn usage_names(u: Seq<KeyUsage>) -> Seq<Seq<char>> {
    u.map_values(|x: KeyUsage| usage_name(x))
}

/// The properties of the `CryptoKey` object for `key`: the AES-GCM length,
/// the HMAC hash and length, nothing more for the curve algorithms.
pub fn describe_key(key: &CryptoKey) -> (r: KeyDescription)
    ensures
        r.key_type@ == key_type_of(key.handle),
        r.extractable == key.extractable,
        r.algorithm_name@ == algorithm_name(key.algorithm),
        r.length == algorithm_length(key.algorithm),
        opt_static(r.hash_name) == algorithm_hash(key.algorithm),
        static_names(r.usages@) == usage_names(key.usages@),
{
    let (length, hash_name) = match &key.algorithm {
        AlgorithmIdentifier::AesGcm { length } => (Some(*length as u32), None),
        AlgorithmIdentifier::Hmac { hash, length } => (*length, Some(hash.name())),
        _ => (None, None),
    };
    let mut usages: Vec<&'static str> = Vec::new();
    let mut i: usize = 0;
    while i < key.usages.len()
        invariant
            i <= key.usages@.len(),
            static_names(usages@) == usage_names(key.usages@.subrange(0, i as int)),
        decreases key.usages@.len() - i,
    {
        let ghost before = usages@;
        assert(static_names(before).len() == before.len());
        assert(usage_names(key.usages@.subrange(0, i as int)).len() == i);
        let name = key.usages[i].as_str();
        usages.push(name);
        assert forall|j: int| 0 <= j < i + 1 implies #[trigger] static_names(usages@)[j]
            == usage_names(key.usages@.subrange(0, i + 1))[j] by {
            if j < i {
                assert(usages@[j] == before[j]);
                assert(static_names(before)[j] == usage_names(key.usages@.subrange(0, i as int))[j]);
            }
        }
        assert(static_names(usages@) =~= usage_names(key.usages@.subrange(0, i + 1)));
        i = i + 1;
    }
    assert(key.usages@.subrange(0, key.usages@.len() as int) =~= key.usages@);
    KeyDescription {
        key_type: key.key_type(),
        extractable: key.extractable,
        algorithm_name: key.algorithm.name(),
        length,
        hash_name,
        usages,
    }
}

} // verus!
