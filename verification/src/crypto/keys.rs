//! WebCrypto keys: their algorithm, usages and material, and the errors of
//! the `subtle` operations.

use vstd::prelude::*;
use crate::text::str_eq;

verus! {

/// What a key may be used for.
#[derive(Debug, Clone, Copy, PartialEq, Eq, Structural)]
pub enum KeyUsage {
    Encrypt,
    Decrypt,
    Sign,
    Verify,
    DeriveKey,
    DeriveBits,
    WrapKey,
    UnwrapKey,
}

/// A hash algorithm of WebCrypto.
#[derive(Debug, Clone, Copy, PartialEq, Eq, Structural)]
pub enum HashAlgorithm {
    Sha1,
    Sha256,
    Sha384,
    Sha512,
}

/// The usage named `s` in WebCrypto, if any.
pub open spec fn usage_named(s: Seq<char>) -> Option<KeyUsage> {
    if s == "encrypt"@ {
        Some(KeyUsage::Encrypt)
    } else if s == "decrypt"@ {
        Some(KeyUsage::Decrypt)
    } else if s == "sign"@ {
        Some(KeyUsage::Sign)
    } else if s == "verify"@ {
        Some(KeyUsage::Verify)
    } else if s == "deriveKey"@ {
        Some(KeyUsage::DeriveKey)
    } else if s == "deriveBits"@ {
        Some(KeyUsage::DeriveBits)
    } else if s == "wrapKey"@ {
        Some(KeyUsage::WrapKey)
    } else if s == "unwrapKey"@ {
        Some(KeyUsage::UnwrapKey)
    } else {
        None
    }
}

/// The WebCrypto name of a usage.
pub open spec fn usage_name(u: KeyUsage) -> Seq<char> {
    match u {
        KeyUsage::Encrypt => "encrypt"@,
        KeyUsage::Decrypt => "decrypt"@,
        KeyUsage::Sign => "sign"@,
        KeyUsage::Verify => "verify"@,
        KeyUsage::DeriveKey => "deriveKey"@,
        KeyUsage::DeriveBits => "deriveBits"@,
        KeyUsage::WrapKey => "wrapKey"@,
        KeyUsage::UnwrapKey => "unwrapKey"@,
    }
}

impl KeyUsage {
    /// The usage with the WebCrypto name `s`.
    pub fn from_str(s: &str) -> (r: Option<KeyUsage>)
        ensures
            r == usage_named(s@),
    {
        if str_eq(s, "encrypt") {
            Some(KeyUsage::Encrypt)
        } else if str_eq(s, "decrypt") {
            Some(KeyUsage::Decrypt)
        } else if str_eq(s, "sign") {
            Some(KeyUsage::Sign)
        } else if str_eq(s, "verify") {
            Some(KeyUsage::Verify)
        } else if str_eq(s, "deriveKey") {
            Some(KeyUsage::DeriveKey)
        } else if str_eq(s, "deriveBits") {
            Some(KeyUsage::DeriveBits)
        } else if str_eq(s, "wrapKey") {
            Some(KeyUsage::WrapKey)
        } else if str_eq(s, "unwrapKey") {
            Some(KeyUsage::UnwrapKey)
        } else {
            None
        }
    }

    /// The WebCrypto name of the usage.
    pub fn as_str(&self) -> (r: &'static str)
        ensures
            r@ == usage_name(*self),
    {
        match self {
            KeyUsage::Encrypt => "encrypt",
            KeyUsage::Decrypt => "decrypt",
            KeyUsage::Sign => "sign",
            KeyUsage::Verify => "verify",
            KeyUsage::DeriveKey => "deriveKey",
            KeyUsage::DeriveBits => "deriveBits",
            KeyUsage::WrapKey => "wrapKey",
            KeyUsage::UnwrapKey => "unwrapKey",
        }
    }
}

/// Each usage is read back from its name.
pub proof fn law_usage_names_round_trip(u: KeyUsage)
    ensures
        usage_named(usage_name(u)) == Some(u),
{
    reveal_strlit("encrypt");
    reveal_strlit("decrypt");
    reveal_strlit("sign");
    reveal_strlit("verify");
    reveal_strlit("deriveKey");
    reveal_strlit("deriveBits");
    reveal_strlit("wrapKey");
    reveal_strlit("unwrapKey");
    assert("encrypt"@[0] != "decrypt"@[0]);
    assert("encrypt"@[0] != "wrapKey"@[0]);
    assert("decrypt"@[0] != "wrapKey"@[0]);
    assert("deriveKey"@[0] != "unwrapKey"@[0]);
    assert("deriveKey"@.len() != "deriveBits"@.len());
    assert("verify"@.len() != "encrypt"@.len());
    assert("verify"@.len() != "sign"@.len());
}

/// The usages named in `names`, in order, unknown names skipped.
pub open spec fn usages_named(names: Seq<Seq<char>>) -> Seq<KeyUsage>
    decreases names.len(),
{
    if names.len() == 0 {
        Seq::empty()
    } else {
        let rest = usages_named(names.drop_last());
        match usage_named(names.last()) {
            Some(u) => rest.push(u),
            None => rest,
        }
    }
}

/// The usages of a `keyUsages` list: each known name in order, unknown
/// names skipped.
pub fn parse_usages(names: &Vec<String>) -> (r: Vec<KeyUsage>)
    ensures
        r@ == usages_named(names@.map_values(|s: String| s@)),
{
    let ghost views = names@.map_values(|s: String| s@);
    let mut out: Vec<KeyUsage> = Vec::new();
    let mut i: usize = 0;
    while i < names.len()
        invariant
            i <= names@.len(),
            views == names@.map_values(|s: String| s@),
            out@ == usages_named(views.subrange(0, i as int)),
        decreases names@.len() - i,
    {
        assert(views.subrange(0, i + 1).drop_last() =~= views.subrange(0, i as int));
        if let Some(u) = KeyUsage::from_str(names[i].as_str()) {
            out.push(u);
        }
        i = i + 1;
    }
    assert(views.subrange(0, names@.len() as int) =~= views);
    out
}

/// The hash with the WebCrypto name `s`, if any.
pub open spec fn hash_named(s: Seq<char>) -> Option<HashAlgorithm> {
    if s == "SHA-1"@ {
        Some(HashAlgorithm::Sha1)
    } else if s == "SHA-256"@ {
        Some(HashAlgorithm::Sha256)
    } else if s == "SHA-384"@ {
        Some(HashAlgorithm::Sha384)
    } else if s == "SHA-512"@ {
        Some(HashAlgorithm::Sha512)
    } else {
        None
    }
}

/// The WebCrypto name of a hash.
pub open spec fn hash_name(h: HashAlgorithm) -> Seq<char> {
    match h {
        HashAlgorithm::Sha1 => "SHA-1"@,
        HashAlgorithm::Sha256 => "SHA-256"@,
        HashAlgorithm::Sha384 => "SHA-384"@,
        HashAlgorithm::Sha512 => "SHA-512"@,
    }
}

/// Each hash is read back from its name.
pub proof fn law_hash_names_round_trip(h: HashAlgorithm)
    ensures
        hash_named(hash_name(h)) == Some(h),
{
    reveal_strlit("SHA-1");
    reveal_strlit("SHA-256");
    reveal_strlit("SHA-384");
    reveal_strlit("SHA-512");
    assert("SHA-256"@[4] != "SHA-384"@[4]);
    assert("SHA-256"@[4] != "SHA-512"@[4]);
    assert("SHA-384"@[4] != "SHA-512"@[4]);
}

impl HashAlgorithm {
    /// The hash with the WebCrypto name `s`.
    pub fn from_name(s: &str) -> (r: Option<HashAlgorithm>)
        ensures
            r == hash_named(s@),
    {
        if str_eq(s, "SHA-1") {
            Some(HashAlgorithm::Sha1)
        } else if str_eq(s, "SHA-256") {
            Some(HashAlgorithm::Sha256)
        } else if str_eq(s, "SHA-384") {
            Some(HashAlgorithm::Sha384)
        } else if str_eq(s, "SHA-512") {
            Some(HashAlgorithm::Sha512)
        } else {
            None
        }
    }

    /// The WebCrypto name of the hash.
    pub fn name(&self) -> (r: &'static str)
        ensures
            r@ == hash_name(*self),
    {
        match self {
            HashAlgorithm::Sha1 => "SHA-1",
            HashAlgorithm::Sha256 => "SHA-256",
            HashAlgorithm::Sha384 => "SHA-384",
            HashAlgorithm::Sha512 => "SHA-512",
        }
    }
}

/// The algorithm a key belongs to.
#[derive(Debug, Clone)]
pub enum AlgorithmIdentifier {
    AesGcm { length: u16 },
    Hmac { hash: HashAlgorithm, length: Option<u32> },
    Ecdsa { named_curve: String, hash: HashAlgorithm },
    Ecdh { named_curve: String },
}

/// The WebCrypto name of an algorithm.
pub open spec fn algorithm_name(a: AlgorithmIdentifier) -> Seq<char> {
    match a {
        AlgorithmIdentifier::AesGcm { .. } => "AES-GCM"@,
        AlgorithmIdentifier::Hmac { .. } => "HMAC"@,
        AlgorithmIdentifier::Ecdsa { .. } => "ECDSA"@,
        AlgorithmIdentifier::Ecdh { .. } => "ECDH"@,
    }
}

impl AlgorithmIdentifier {
    /// The WebCrypto name of the algorithm.
    pub fn name(&self) -> (r: &'static str)
        ensures
            r@ == algorithm_name(*self),
    {
        match self {
            AlgorithmIdentifier::AesGcm { .. } => "AES-GCM",
            AlgorithmIdentifier::Hmac { .. } => "HMAC",
            AlgorithmIdentifier::Ecdsa { .. } => "ECDSA",
            AlgorithmIdentifier::Ecdh { .. } => "ECDH",
        }
    }
}

/// The key material.
#[derive(Debug, Clone)]
pub enum CryptoKeyHandle {
    /// An elliptic-curve private key, SEC1 DER encoded.
    EcdsaPrivateKey(Vec<u8>),
    /// The raw bytes of a symmetric key.
    Secret(Vec<u8>),
}

/// A WebCrypto `CryptoKey`.
#[derive(Debug, Clone)]
pub struct CryptoKey {
    pub algorithm: AlgorithmIdentifier,
    pub extractable: bool,
    pub usages: Vec<KeyUsage>,
    pub handle: CryptoKeyHandle,
}

/// Errors of the WebCrypto operations.
#[derive(Debug)]
pub enum CryptoError {
    NotSupported,
    InvalidAlgorithm(String),
    OperationFailed,
    InvalidKey,
    DataError(String),
}

/// The `type` of a key with the given material.
pub open spec fn key_type_of(handle: CryptoKeyHandle) -> Seq<char> {
    match handle {
        CryptoKeyHandle::EcdsaPrivateKey(_) => "private"@,
        CryptoKeyHandle::Secret(_) => "secret"@,
    }
}

impl CryptoKey {
    /// An elliptic-curve private key with SEC1 DER material `der`.
    pub fn new_ecdsa_private(
        algorithm: AlgorithmIdentifier,
        der: Vec<u8>,
        extractable: bool,
        usages: Vec<KeyUsage>,
    ) -> (r: CryptoKey)
        ensures
            r.algorithm == algorithm,
            r.handle is EcdsaPrivateKey,
            r.handle->EcdsaPrivateKey_0@ == der@,
            r.extractable == extractable,
            r.usages@ == usages@,
    {
        CryptoKey { algorithm, extractable, usages, handle: CryptoKeyHandle::EcdsaPrivateKey(der) }
    }

    /// The key's `type`: `private` for a private key, `secret` for a
    /// symmetric one.
    pub fn key_type(&self) -> (r: &'static str)
        ensures
            r@ == key_type_of(self.handle),
    {
        match &self.handle {
            CryptoKeyHandle::EcdsaPrivateKey(_) => "private",
            CryptoKeyHandle::Secret(_) => "secret",
        }
    }
}

} // verus!
