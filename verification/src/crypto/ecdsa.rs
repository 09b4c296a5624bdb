//! WebCrypto ECDSA and ECDH on the curves P-256 and P-384.

use vstd::prelude::*;
use vstd::string::StringExecFns;
use crate::text::str_eq;
use crate::crypto::keys::{AlgorithmIdentifier, CryptoError, CryptoKey, CryptoKeyHandle, HashAlgorithm, KeyUsage};
use crate::crypto::curves::{
    p256_sec1_error, p256_signature_of, p256_signature_parses, p256_verifies,
    p384_sec1_error, p384_signature_of, p384_signature_parses, p384_verifies,
    p256_parse_sec1, p256_generate_sec1, p256_sign, p256_parse_signature, p256_verify,
    p384_parse_sec1, p384_generate_sec1, p384_sign, p384_parse_signature, p384_verify,
    p256_ecdh_of, p384_ecdh_of, p256_ecdh, p384_ecdh,
};

verus! {

/// ECDSA parameters: the curve (`P-256` or `P-384`) and the hash.
#[derive(Debug, Clone)]
pub struct EcdsaParams {
    pub named_curve: String,
    pub hash: HashAlgorithm,
}

/// The hash a key on the named curve is made with: SHA-256 for `P-256`,
/// SHA-384 otherwise.
pub open spec fn curve_hash(curve: Seq<char>) -> HashAlgorithm {
    if curve == "P-256"@ {
        HashAlgorithm::Sha256
    } else {
        HashAlgorithm::Sha384
    }
}

/// Whether `a` is the algorithm of an `algorithm` (`ECDH` or, for any
/// other name, ECDSA) key on `curve`.
pub open spec fn ec_algorithm_is(a: AlgorithmIdentifier, algorithm: Seq<char>, curve: Seq<char>) -> bool {
    if algorithm == "ECDH"@ {
        a matches AlgorithmIdentifier::Ecdh { named_curve } && named_curve@ == curve
    } else {
        a matches AlgorithmIdentifier::Ecdsa { named_curve, hash } && named_curve@ == curve && hash == curve_hash(curve)
    }
}

/// Whether `curve` names a supported curve.
pub open spec fn curve_supported(curve: Seq<char>) -> bool {
    curve == "P-256"@ || curve == "P-384"@
}

/// The reason the private key `der` on `curve` does not parse, or `None`.
pub open spec fn sec1_error(curve: Seq<char>, der: Seq<u8>) -> Option<Seq<char>> {
    if curve == "P-256"@ {
        p256_sec1_error(der)
    } else {
        p384_sec1_error(der)
    }
}

/// The signature of `data` under the private key `der` on `curve`.
pub open spec fn signature_of(curve: Seq<char>, der: Seq<u8>, data: Seq<u8>) -> Seq<u8> {
    if curve == "P-256"@ {
        p256_signature_of(der, data)
    } else {
        p384_signature_of(der, data)
    }
}

/// Whether `sig` parses as a signature on `curve`.
pub open spec fn signature_parses(curve: Seq<char>, sig: Seq<u8>) -> bool {
    if curve == "P-256"@ {
        p256_signature_parses(sig)
    } else {
        p384_signature_parses(sig)
    }
}

/// Whether `sig` checks as a signature of `data` under `der` on `curve`.
pub open spec fn verifies(curve: Seq<char>, der: Seq<u8>, sig: Seq<u8>, data: Seq<u8>) -> bool {
    if curve == "P-256"@ {
        p256_verifies(der, sig, data)
    } else {
        p384_verifies(der, sig, data)
    }
}

fn ec_algorithm(algorithm: &str, named_curve: &str) -> (r: AlgorithmIdentifier)
    requires
        curve_supported(named_curve@),
    ensures
        ec_algorithm_is(r, algorithm@, named_curve@),
{
    if str_eq(algorithm, "ECDH") {
        AlgorithmIdentifier::Ecdh { named_curve: named_curve.to_owned() }
    } else {
        let hash = if str_eq(named_curve, "P-256") {
            HashAlgorithm::Sha256
        } else {
            HashAlgorithm::Sha384
        };
        AlgorithmIdentifier::Ecdsa { named_curve: named_curve.to_owned(), hash }
    }
}

fn unsupported_curve(named_curve: &str) -> (r: CryptoError)
    ensures
        r is InvalidAlgorithm,
        r->InvalidAlgorithm_0@ == "Unsupported named curve: "@ + named_curve@,
{
    let mut m = String::from_str("Unsupported named curve: ");
    m.append(named_curve);
    CryptoError::InvalidAlgorithm(m)
}

/// Whether `k` is a private key on `curve` of the `algorithm` named, with
/// the given extractability, usages and material.
pub open spec fn ec_key_is(
    k: CryptoKey,
    algorithm: Seq<char>,
    curve: Seq<char>,
    extractable: bool,
    usages: Seq<KeyUsage>,
    der: Seq<u8>,
) -> bool {
    &&& ec_algorithm_is(k.algorithm, algorithm, curve)
    &&& k.extractable == extractable
    &&& k.usages@ == usages
    &&& k.handle is EcdsaPrivateKey
    &&& k.handle->EcdsaPrivateKey_0@ == der
}

/// Generates a key pair on `named_curve` (`P-256` or `P-384`) for the
/// algorithm `algorithm` (`ECDH`, or ECDSA for any other name). The private
/// key is kept SEC1 encoded; it parses back, so it can sign. Generating a
/// key on a supported curve always succeeds.
pub fn generate_key(
    named_curve: &str,
    algorithm: &str,
    extractable: bool,
    usages: Vec<KeyUsage>,
) -> (r: Result<CryptoKey, CryptoError>)
    ensures
        !curve_supported(named_curve@) ==> r is Err && r->Err_0 is InvalidAlgorithm
            && r->Err_0->InvalidAlgorithm_0@ == "Unsupported named curve: "@ + named_curve@,
        curve_supported(named_curve@) ==> r is Ok && ec_key_is(
            r->Ok_0,
            algorithm@,
            named_curve@,
            extractable,
            usages@,
            r->Ok_0.handle->EcdsaPrivateKey_0@,
        ) && sec1_error(named_curve@, r->Ok_0.handle->EcdsaPrivateKey_0@) is None,
{
    let der = if str_eq(named_curve, "P-256") {
        p256_generate_sec1()
    } else if str_eq(named_curve, "P-384") {
        p384_generate_sec1()
    } else {
        return Err(unsupported_curve(named_curve));
    };
    match der {
        Some(bytes) => {
            let alg = ec_algorithm(algorithm, named_curve);
            Ok(CryptoKey::new_ecdsa_private(alg, bytes, extractable, usages))
        },
        None => Err(CryptoError::OperationFailed),
    }
}

/// Imports a private key: only the `pkcs8` format is supported, holding a
/// SEC1 DER key of `named_curve`; `spki`, `jwk` and other formats are not.
pub fn import_key(
    format: &str,
    key_data: &[u8],
    algorithm: &str,
    named_curve: &str,
    extractable: bool,
    usages: Vec<KeyUsage>,
) -> (r: Result<CryptoKey, CryptoError>)
    ensures
        format@ != "pkcs8"@ ==> r is Err && r->Err_0 is NotSupported,
        format@ == "pkcs8"@ && !curve_supported(named_curve@) ==> r is Err && r->Err_0 is InvalidAlgorithm
            && r->Err_0->InvalidAlgorithm_0@ == "Unsupported named curve: "@ + named_curve@,
        format@ == "pkcs8"@ && curve_supported(named_curve@) ==> match sec1_error(named_curve@, key_data@) {
            Some(e) => r is Err && r->Err_0 is DataError && r->Err_0->DataError_0@ == "Failed to parse SEC1 key: "@ + e,
            None => r is Ok && ec_key_is(r->Ok_0, algorithm@, named_curve@, extractable, usages@, key_data@),
        },
{
    if !str_eq(format, "pkcs8") {
        return Err(CryptoError::NotSupported);
    }
    let parsed = if str_eq(named_curve, "P-256") {
        p256_parse_sec1(key_data)
    } else if str_eq(named_curve, "P-384") {
        p384_parse_sec1(key_data)
    } else {
        return Err(unsupported_curve(named_curve));
    };
    match parsed {
        Ok(()) => {
            let alg = ec_algorithm(algorithm, named_curve);
            let mut bytes: Vec<u8> = Vec::new();
            bytes.extend_from_slice(key_data);
            assert(bytes@ == key_data@);
            Ok(CryptoKey::new_ecdsa_private(alg, bytes, extractable, usages))
        },
        Err(e) => {
            let mut m = String::from_str("Failed to parse SEC1 key: ");
            m.append(e.as_str());
            Err(CryptoError::DataError(m))
        },
    }
}

/// Signs `data` with the private key `key` on the curve of `params`:
/// a key that holds no private key, or whose material does not parse, is an
/// invalid key.
pub fn sign(key: &CryptoKey, data: &[u8], params: &EcdsaParams) -> (r: Result<Vec<u8>, CryptoError>)
    ensures
        !(key.handle is EcdsaPrivateKey) ==> r is Err && r->Err_0 is InvalidKey,
        key.handle is EcdsaPrivateKey ==> {
            let der = key.handle->EcdsaPrivateKey_0@;
            let curve = params.named_curve@;
            if !curve_supported(curve) {
                r is Err && r->Err_0 is InvalidAlgorithm && r->Err_0->InvalidAlgorithm_0@ == curve
            } else if sec1_error(curve, der) is Some {
                r is Err && r->Err_0 is InvalidKey
            } else {
                r is Ok && r->Ok_0@ == signature_of(curve, der, data@)
            }
        },
{
    let der: &[u8] = match &key.handle {
        CryptoKeyHandle::EcdsaPrivateKey(bytes) => bytes.as_slice(),
        _ => {
            return Err(CryptoError::InvalidKey);
        },
    };
    let signed = if str_eq(params.named_curve.as_str(), "P-256") {
        p256_sign(der, data)
    } else if str_eq(params.named_curve.as_str(), "P-384") {
        p384_sign(der, data)
    } else {
        return Err(CryptoError::InvalidAlgorithm(params.named_curve.clone()));
    };
    match signed {
        Some(sig) => Ok(sig),
        None => Err(CryptoError::InvalidKey),
    }
}

/// Checks `signature` over `data` with the key `key` on the curve of
/// `params`. A signature that does not parse is a data error; one that
/// parses gives whether it checks. What `sign` made with the same key and
/// data checks.
pub fn verify(
    key: &CryptoKey,
    signature: &[u8],
    data: &[u8],
    params: &EcdsaParams,
) -> (r: Result<bool, CryptoError>)
    ensures
        !(key.handle is EcdsaPrivateKey) ==> r is Err && r->Err_0 is InvalidKey,
        key.handle is EcdsaPrivateKey ==> {
            let der = key.handle->EcdsaPrivateKey_0@;
            let curve = params.named_curve@;
            if !curve_supported(curve) {
                r is Err && r->Err_0 is InvalidAlgorithm && r->Err_0->InvalidAlgorithm_0@ == curve
            } else if sec1_error(curve, der) is Some {
                r is Err && r->Err_0 is InvalidKey
            } else if !signature_parses(curve, signature@) {
                r is Err && r->Err_0 is DataError && r->Err_0->DataError_0@ == "Invalid signature"@
            } else {
                r == Ok::<bool, CryptoError>(verifies(curve, der, signature@, data@))
            }
        },
        key.handle is EcdsaPrivateKey && curve_supported(params.named_curve@)
            && sec1_error(params.named_curve@, key.handle->EcdsaPrivateKey_0@) is None
            && signature@ == signature_of(params.named_curve@, key.handle->EcdsaPrivateKey_0@, data@)
            ==> r == Ok::<bool, CryptoError>(true),
{
    let der: &[u8] = match &key.handle {
        CryptoKeyHandle::EcdsaPrivateKey(bytes) => bytes.as_slice(),
        _ => {
            return Err(CryptoError::InvalidKey);
        },
    };
    if str_eq(params.named_curve.as_str(), "P-256") {
        if p256_parse_sec1(der).is_err() {
            return Err(CryptoError::InvalidKey);
        }
        if !p256_parse_signature(signature) {
            return Err(CryptoError::DataError(String::from_str("Invalid signature")));
        }
        Ok(p256_verify(der, signature, data))
    } else if str_eq(params.named_curve.as_str(), "P-384") {
        if p384_parse_sec1(der).is_err() {
            return Err(CryptoError::InvalidKey);
        }
        if !p384_parse_signature(signature) {
            return Err(CryptoError::DataError(String::from_str("Invalid signature")));
        }
        Ok(p384_verify(der, signature, data))
    } else {
        Err(CryptoError::InvalidAlgorithm(params.named_curve.clone()))
    }
}

/// The curve named by an ECDSA or ECDH key's algorithm.
pub open spec fn ec_key_curve(a: AlgorithmIdentifier) -> Option<Seq<char>> {
    match a {
        AlgorithmIdentifier::Ecdsa { named_curve, .. } => Some(named_curve@),
        AlgorithmIdentifier::Ecdh { named_curve } => Some(named_curve@),
        _ => None,
    }
}

/// The ECDH shared secret on `curve` of the private key `secret` with the
/// public key of `peer`.
pub open spec fn ecdh_of(curve: Seq<char>, secret: Seq<u8>, peer: Seq<u8>) -> Seq<u8> {
    if curve == "P-256"@ {
        p256_ecdh_of(secret, peer)
    } else {
        p384_ecdh_of(secret, peer)
    }
}

/// The length in bytes of an ECDH shared secret on `curve`: 32 on P-256,
/// 48 on P-384.
pub open spec fn ecdh_secret_len(curve: Seq<char>) -> nat {
    if curve == "P-256"@ {
        32
    } else {
        48
    }
}

/// The first `length` bits of `s`, all of it where no length is asked for;
/// `None` where the length is not a whole number of bytes or exceeds `s`.
pub open spec fn leading_bits(s: Seq<u8>, length: Option<usize>) -> Option<Seq<u8>> {
    match length {
        None => Some(s),
        Some(n) => if n % 8 == 0 && n / 8 <= s.len() {
            Some(s.subrange(0, (n / 8) as int))
        } else {
            None
        },
    }
}

/// Whether both keys hold private key material on the same supported curve,
/// and both parse.
pub open spec fn ecdh_keys_ok(private_key: CryptoKey, public_key: CryptoKey) -> bool {
    &&& private_key.handle is EcdsaPrivateKey
    &&& public_key.handle is EcdsaPrivateKey
    &&& ec_key_curve(private_key.algorithm) matches Some(c) && curve_supported(c)
        && ec_key_curve(public_key.algorithm) == Some(c)
        && sec1_error(c, private_key.handle->EcdsaPrivateKey_0@) is None
        && sec1_error(c, public_key.handle->EcdsaPrivateKey_0@) is None
}

/// The bits [`derive_bits`] derives from the two keys, or `None` where it
/// fails.
pub open spec fn derived_bits(private_key: CryptoKey, public_key: CryptoKey, length: Option<usize>) -> Option<Seq<u8>> {
    if ecdh_keys_ok(private_key, public_key) {
        leading_bits(
            ecdh_of(
                ec_key_curve(private_key.algorithm)->0,
                private_key.handle->EcdsaPrivateKey_0@,
                public_key.handle->EcdsaPrivateKey_0@,
            ),
            length,
        )
    } else {
        None
    }
}

/// ECDH key agreement: the shared secret of `private_key` with the public
/// half of `public_key` (a key of this module keeps the private key, from
/// which the public one follows), cut to `length` bits when a length is
/// given. Both keys must hold key material (else an invalid key); the
/// private key's curve must be supported (else an invalid algorithm naming
/// it); the other key must be on the same curve and both must parse (else
/// an invalid key); a length that is not a whole number of bytes or exceeds
/// the secret fails the operation.
///
/// Key agreement: where one side derives bits, the other side, deriving
/// with its private key and this side's key, derives the same bits.
pub fn derive_bits(
    private_key: &CryptoKey,
    public_key: &CryptoKey,
    length: Option<usize>,
) -> (r: Result<Vec<u8>, CryptoError>)
    ensures
        r is Ok <==> derived_bits(*private_key, *public_key, length) is Some,
        r is Ok ==> r->Ok_0@ == derived_bits(*private_key, *public_key, length)->0,
        r is Ok ==> derived_bits(*public_key, *private_key, length) == derived_bits(
            *private_key,
            *public_key,
            length,
        ),
        r is Ok && length is None ==> r->Ok_0@.len() == ecdh_secret_len(
            ec_key_curve(private_key.algorithm)->0,
        ),
        !(private_key.handle is EcdsaPrivateKey && public_key.handle is EcdsaPrivateKey) ==> r is Err
            && r->Err_0 is InvalidKey,
        private_key.handle is EcdsaPrivateKey && public_key.handle is EcdsaPrivateKey ==> match ec_key_curve(
            private_key.algorithm,
        ) {
            None => r is Err && r->Err_0 is InvalidKey,
            Some(c) => if !curve_supported(c) {
                r is Err && r->Err_0 is InvalidAlgorithm && r->Err_0->InvalidAlgorithm_0@ == c
            } else if !ecdh_keys_ok(*private_key, *public_key) {
                r is Err && r->Err_0 is InvalidKey
            } else {
                r is Ok || (r is Err && r->Err_0 is OperationFailed)
            },
        },
{
    let a: &[u8] = match &private_key.handle {
        CryptoKeyHandle::EcdsaPrivateKey(bytes) => bytes.as_slice(),
        _ => {
            return Err(CryptoError::InvalidKey);
        },
    };
    let b: &[u8] = match &public_key.handle {
        CryptoKeyHandle::EcdsaPrivateKey(bytes) => bytes.as_slice(),
        _ => {
            return Err(CryptoError::InvalidKey);
        },
    };
    let curve: &str = match &private_key.algorithm {
        AlgorithmIdentifier::Ecdsa { named_curve, .. } => named_curve.as_str(),
        AlgorithmIdentifier::Ecdh { named_curve } => named_curve.as_str(),
        _ => {
            return Err(CryptoError::InvalidKey);
        },
    };
    let is_p256 = str_eq(curve, "P-256");
    if !is_p256 && !str_eq(curve, "P-384") {
        return Err(CryptoError::InvalidAlgorithm(curve.to_owned()));
    }
    let peer_curve: &str = match &public_key.algorithm {
        AlgorithmIdentifier::Ecdsa { named_curve, .. } => named_curve.as_str(),
        AlgorithmIdentifier::Ecdh { named_curve } => named_curve.as_str(),
        _ => {
            return Err(CryptoError::InvalidKey);
        },
    };
    if !str_eq(curve, peer_curve) {
        return Err(CryptoError::InvalidKey);
    }
    let shared = if is_p256 {
        p256_ecdh(a, b)
    } else {
        p384_ecdh(a, b)
    };
    let mut secret = match shared {
        Some(s) => s,
        None => {
            return Err(CryptoError::InvalidKey);
        },
    };
    match length {
        None => Ok(secret),
        Some(n) => {
            if n % 8 == 0 && n / 8 <= secret.len() {
                secret.truncate(n / 8);
                Ok(secret)
            } else {
                Err(CryptoError::OperationFailed)
            }
        },
    }
}

} // verus!
