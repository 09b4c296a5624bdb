//! The NIST curves P-256 and P-384 of the `p256` and `p384` crates: key
//! generation, SEC1 key parsing, and deterministic (RFC 6979) ECDSA; and
//! Ed25519 of the `ring` crate.

use vstd::prelude::*;
use signature::{Signer, Verifier};
use signature::hazmat::{PrehashSigner, PrehashVerifier};
use ring::signature::KeyPair;
use p256::pkcs8::{DecodePrivateKey, DecodePublicKey, EncodePrivateKey, EncodePublicKey, LineEnding};

verus! {

/// The reason `p256::SecretKey::from_sec1_der` refuses `der`, or `None`
/// where it accepts it.
pub uninterp spec fn p256_sec1_error(der: Seq<u8>) -> Option<Seq<char>>;

/// `p256::SecretKey::from_sec1_der`: whether `der` is a SEC1 private key of
/// P-256, with the error's text where it is not.
#[verifier::external_body]
pub(crate) fn p256_parse_sec1(der: &[u8]) -> (r: Result<(), String>)
    ensures
        r is Ok <==> p256_sec1_error(der@) is None,
        r is Err ==> p256_sec1_error(der@) == Some(r->Err_0@),
{
    match p256::SecretKey::from_sec1_der(der) {
        Ok(_) => Ok(()),
        Err(e) => Err(format!("{}", e)),
    }
}

/// `Generate::generate_from_rng` of `p256::SecretKey` with the thread's random generator, then
/// `to_sec1_der`: a fresh key, SEC1 encoded. The encoder fails only on
/// lengths beyond `der::Length::MAX` (`u32::MAX`), far above the size of a
/// key of this curve, so a key always comes back. The key is random; what is
/// said of it is that it parses back.
#[verifier::external_body]
pub(crate) fn p256_generate_sec1() -> (r: Option<Vec<u8>>)
    ensures
        r is Some,
        r matches Some(v) ==> p256_sec1_error(v@) is None,
{
    let key = <p256::SecretKey as p256::elliptic_curve::Generate>::generate_from_rng(&mut rand::rng());
    key.to_sec1_der().ok().map(|d| d.to_vec())
}

/// The 64-byte ECDSA signature (`r || s`) of `data` under the P-256 key
/// `der`; RFC 6979 makes it a function of the two.
pub uninterp spec fn p256_signature_of(der: Seq<u8>, data: Seq<u8>) -> Seq<u8>;

/// `p256::ecdsa::SigningKey::sign` (SHA-256 digest, RFC 6979 nonce) with the
/// key parsed from `der`, as the bytes of `Signature::to_bytes`; `None`
/// where the key does not parse.
#[verifier::external_body]
pub(crate) fn p256_sign(der: &[u8], data: &[u8]) -> (r: Option<Vec<u8>>)
    ensures
        r is Some <==> p256_sec1_error(der@) is None,
        r matches Some(v) ==> v@ == p256_signature_of(der@, data@) && v@.len() == 64,
{
    let key = p256::SecretKey::from_sec1_der(der).ok()?;
    let signer = p256::ecdsa::SigningKey::from(&key);
    let sig: p256::ecdsa::Signature = signer.sign(data);
    Some(sig.to_bytes().to_vec())
}

/// Whether `p256::ecdsa::Signature::try_from` accepts `sig`.
pub uninterp spec fn p256_signature_parses(sig: Seq<u8>) -> bool;

/// `p256::ecdsa::Signature::try_from`: whether `sig` is 64 bytes holding
/// two scalars in range. Signatures made by `p256_sign` parse.
#[verifier::external_body]
pub(crate) fn p256_parse_signature(sig: &[u8]) -> (r: bool)
    ensures
        r == p256_signature_parses(sig@),
        forall|der: Seq<u8>, data: Seq<u8>|
            p256_sec1_error(der) is None && #[trigger] p256_signature_of(der, data) == sig@ ==> r,
{
    p256::ecdsa::Signature::try_from(sig).is_ok()
}

/// Whether `sig` is a valid P-256 signature of `data` under the public key
/// of the private key `der`.
pub uninterp spec fn p256_verifies(der: Seq<u8>, sig: Seq<u8>, data: Seq<u8>) -> bool;

/// `p256::ecdsa::VerifyingKey::verify`, with the verifying key of the
/// signing key parsed from `der`: whether the signature checks. A signature
/// made by `p256_sign` with the same key and data checks.
#[verifier::external_body]
pub(crate) fn p256_verify(der: &[u8], sig: &[u8], data: &[u8]) -> (r: bool)
    requires
        p256_sec1_error(der@) is None,
        p256_signature_parses(sig@),
    ensures
        r == p256_verifies(der@, sig@, data@),
        p256_signature_of(der@, data@) == sig@ ==> r,
{
    let Ok(key) = p256::SecretKey::from_sec1_der(der) else { return false };
    let signer = p256::ecdsa::SigningKey::from(&key);
    let verifier = p256::ecdsa::VerifyingKey::from(&signer);
    let Ok(s) = p256::ecdsa::Signature::try_from(sig) else { return false };
    verifier.verify(data, &s).is_ok()
}

/// The P-256 ECDH shared secret of the private key `secret` and the public
/// key of the private key `peer`, both SEC1 encoded: the 32-byte
/// x-coordinate of the agreed point.
pub uninterp spec fn p256_ecdh_of(secret: Seq<u8>, peer: Seq<u8>) -> Seq<u8>;

/// `p256::ecdh::diffie_hellman` of the scalar of the key parsed from `secret`
/// (`SecretKey::from_sec1_der`, `to_nonzero_scalar`) with the public point of
/// the key parsed from `peer` (`public_key`, `as_affine`), as the bytes of
/// `SharedSecret::raw_secret_bytes`; `None` where a key does not parse. As
/// the crate's documentation shows, both participants arrive at the same
/// shared secret.
#[verifier::external_body]
pub(crate) fn p256_ecdh(secret: &[u8], peer: &[u8]) -> (r: Option<Vec<u8>>)
    ensures
        r is Some <==> (p256_sec1_error(secret@) is None && p256_sec1_error(peer@) is None),
        r matches Some(v) ==> v@ == p256_ecdh_of(secret@, peer@) && v@.len() == 32,
        r matches Some(v) ==> v@ == p256_ecdh_of(peer@, secret@),
{
    let a = p256::SecretKey::from_sec1_der(secret).ok()?;
    let b = p256::SecretKey::from_sec1_der(peer).ok()?;
    let shared = p256::ecdh::diffie_hellman(a.to_nonzero_scalar(), b.public_key().as_affine());
    Some(shared.raw_secret_bytes().to_vec())
}

/// The reason `p384::SecretKey::from_sec1_der` refuses `der`, or `None`
/// where it accepts it.
pub uninterp spec fn p384_sec1_error(der: Seq<u8>) -> Option<Seq<char>>;

/// `p384::SecretKey::from_sec1_der`: whether `der` is a SEC1 private key of
/// P-384, with the error's text where it is not.
#[verifier::external_body]
pub(crate) fn p384_parse_sec1(der: &[u8]) -> (r: Result<(), String>)
    ensures
        r is Ok <==> p384_sec1_error(der@) is None,
        r is Err ==> p384_sec1_error(der@) == Some(r->Err_0@),
{
    match p384::SecretKey::from_sec1_der(der) {
        Ok(_) => Ok(()),
        Err(e) => Err(format!("{}", e)),
    }
}

/// `Generate::generate_from_rng` of `p384::SecretKey` with the thread's random generator, then
/// `to_sec1_der`: a fresh key, SEC1 encoded. The encoder fails only on
/// lengths beyond `der::Length::MAX` (`u32::MAX`), far above the size of a
/// key of this curve, so a key always comes back. The key is random; what is
/// said of it is that it parses back.
#[verifier::external_body]
pub(crate) fn p384_generate_sec1() -> (r: Option<Vec<u8>>)
    ensures
        r is Some,
        r matches Some(v) ==> p384_sec1_error(v@) is None,
{
    let key = <p384::SecretKey as p384::elliptic_curve::Generate>::generate_from_rng(&mut rand::rng());
    key.to_sec1_der().ok().map(|d| d.to_vec())
}

/// The 96-byte ECDSA signature (`r || s`) of `data` under the P-384 key
/// `der`; RFC 6979 makes it a function of the two.
pub uninterp spec fn p384_signature_of(der: Seq<u8>, data: Seq<u8>) -> Seq<u8>;

/// `p384::ecdsa::SigningKey::sign` (SHA-384 digest, RFC 6979 nonce) with the
/// key parsed from `der`, as the bytes of `Signature::to_bytes`; `None`
/// where the key does not parse.
#[verifier::external_body]
pub(crate) fn p384_sign(der: &[u8], data: &[u8]) -> (r: Option<Vec<u8>>)
    ensures
        r is Some <==> p384_sec1_error(der@) is None,
        r matches Some(v) ==> v@ == p384_signature_of(der@, data@) && v@.len() == 96,
{
    let key = p384::SecretKey::from_sec1_der(der).ok()?;
    let signer = p384::ecdsa::SigningKey::from(&key);
    let sig: p384::ecdsa::Signature = signer.sign(data);
    Some(sig.to_bytes().to_vec())
}

/// Whether `p384::ecdsa::Signature::from_slice` accepts `sig`.
pub uninterp spec fn p384_signature_parses(sig: Seq<u8>) -> bool;

/// `p384::ecdsa::Signature::from_slice`: whether `sig` is 96 bytes holding
/// two scalars in range. Signatures made by `p384_sign` parse.
#[verifier::external_body]
pub(crate) fn p384_parse_signature(sig: &[u8]) -> (r: bool)
    ensures
        r == p384_signature_parses(sig@),
        forall|der: Seq<u8>, data: Seq<u8>|
            p384_sec1_error(der) is None && #[trigger] p384_signature_of(der, data) == sig@ ==> r,
{
    p384::ecdsa::Signature::from_slice(sig).is_ok()
}

/// Whether `sig` is a valid P-384 signature of `data` under the public key
/// of the private key `der`.
pub uninterp spec fn p384_verifies(der: Seq<u8>, sig: Seq<u8>, data: Seq<u8>) -> bool;

/// `p384::ecdsa::VerifyingKey::verify`, with the verifying key of the
/// signing key parsed from `der`: whether the signature checks. A signature
/// made by `p384_sign` with the same key and data checks.
#[verifier::external_body]
pub(crate) fn p384_verify(der: &[u8], sig: &[u8], data: &[u8]) -> (r: bool)
    requires
        p384_sec1_error(der@) is None,
        p384_signature_parses(sig@),
    ensures
        r == p384_verifies(der@, sig@, data@),
        p384_signature_of(der@, data@) == sig@ ==> r,
{
    let Ok(key) = p384::SecretKey::from_sec1_der(der) else { return false };
    let signer = p384::ecdsa::SigningKey::from(&key);
    let verifier = p384::ecdsa::VerifyingKey::from(&signer);
    let Ok(s) = p384::ecdsa::Signature::from_slice(sig) else { return false };
    verifier.verify(data, &s).is_ok()
}

/// A key pair as PEM text: PKCS#8 for the private key, SPKI for the public.
#[derive(Debug)]
pub struct PemPair {
    pub private_pem: String,
    pub public_pem: String,
}

/// The DER ECDSA signature of the prehashed `digest` under the P-256 key in
/// PKCS#8 PEM `pem` (RFC 6979 nonce), or the text of the error.
pub uninterp spec fn p256_prehash_signature(pem: Seq<char>, digest: Seq<u8>) -> Result<Seq<u8>, Seq<char>>;

/// Whether the DER signature `sig` of the prehashed `digest` checks under
/// the P-256 public key in SPKI PEM `pem`.
pub uninterp spec fn p256_prehash_verifies(pem: Seq<char>, digest: Seq<u8>, sig: Seq<u8>) -> bool;

/// `p256::SecretKey::from_pkcs8_pem`, `SigningKey::from`,
/// `PrehashSigner::sign_prehash` and `Signature::to_der`.
#[verifier::external_body]
pub(crate) fn p256_sign_prehash_der(pem: &str, digest: &[u8]) -> (r: Result<Vec<u8>, String>)
    ensures
        r is Ok ==> p256_prehash_signature(pem@, digest@) == Ok::<Seq<u8>, Seq<char>>(r->Ok_0@),
        r is Err ==> p256_prehash_signature(pem@, digest@) == Err::<Seq<u8>, Seq<char>>(r->Err_0@),
{
    let sk = p256::SecretKey::from_pkcs8_pem(pem).map_err(|e| e.to_string())?;
    let signing = p256::ecdsa::SigningKey::from(&sk);
    let sig: p256::ecdsa::Signature = signing.sign_prehash(digest).map_err(|e| e.to_string())?;
    Ok(sig.to_der().as_bytes().to_vec())
}

/// `p256::PublicKey::from_public_key_pem`, `VerifyingKey::from`,
/// `Signature::from_der` and `PrehashVerifier::verify_prehash`: whether the
/// signature checks; a key or signature that does not parse does not.
#[verifier::external_body]
pub(crate) fn p256_verify_prehash_der(pem: &str, digest: &[u8], sig: &[u8]) -> (r: bool)
    ensures
        r == p256_prehash_verifies(pem@, digest@, sig@),
{
    let Ok(pk) = p256::PublicKey::from_public_key_pem(pem) else { return false };
    let verifying = p256::ecdsa::VerifyingKey::from(&pk);
    let Ok(s) = p256::ecdsa::Signature::from_der(sig) else { return false };
    verifying.verify_prehash(digest, &s).is_ok()
}

/// A fresh P-256 key pair from the thread's random generator
/// (`Generate::generate_from_rng`), as PKCS#8 and SPKI PEM (`LineEnding::LF`),
/// or `None` where encoding fails. The key is random; what is said is that
/// a signature made with the private key checks under the public one.
#[verifier::external_body]
pub(crate) fn p256_generate_pem() -> (r: Option<PemPair>)
    ensures
        r is Some ==> forall|d: Seq<u8>| #[trigger] p256_prehash_signature(r->0.private_pem@, d) is Ok
            ==> p256_prehash_verifies(r->0.public_pem@, d, p256_prehash_signature(r->0.private_pem@, d)->Ok_0),
{
    let sk = <p256::SecretKey as p256::elliptic_curve::Generate>::generate_from_rng(&mut rand::rng());
    let private_pem = sk.to_pkcs8_pem(LineEnding::LF).ok()?.to_string();
    let public_pem = sk.public_key().to_public_key_pem(LineEnding::LF).ok()?;
    Some(PemPair { private_pem, public_pem })
}

/// The DER ECDSA signature of the prehashed `digest` under the P-384 key in
/// PKCS#8 PEM `pem` (RFC 6979 nonce), or the text of the error.
pub uninterp spec fn p384_prehash_signature(pem: Seq<char>, digest: Seq<u8>) -> Result<Seq<u8>, Seq<char>>;

/// Whether the DER signature `sig` of the prehashed `digest` checks under
/// the P-384 public key in SPKI PEM `pem`.
pub uninterp spec fn p384_prehash_verifies(pem: Seq<char>, digest: Seq<u8>, sig: Seq<u8>) -> bool;

/// `p384::SecretKey::from_pkcs8_pem`, `SigningKey::from`,
/// `PrehashSigner::sign_prehash` and `Signature::to_der`.
#[verifier::external_body]
pub(crate) fn p384_sign_prehash_der(pem: &str, digest: &[u8]) -> (r: Result<Vec<u8>, String>)
    ensures
        r is Ok ==> p384_prehash_signature(pem@, digest@) == Ok::<Seq<u8>, Seq<char>>(r->Ok_0@),
        r is Err ==> p384_prehash_signature(pem@, digest@) == Err::<Seq<u8>, Seq<char>>(r->Err_0@),
{
    let sk = p384::SecretKey::from_pkcs8_pem(pem).map_err(|e| e.to_string())?;
    let signing = p384::ecdsa::SigningKey::from(&sk);
    let sig: p384::ecdsa::Signature = signing.sign_prehash(digest).map_err(|e| e.to_string())?;
    Ok(sig.to_der().as_bytes().to_vec())
}

/// `p384::PublicKey::from_public_key_pem`, `VerifyingKey::from`,
/// `Signature::from_der` and `PrehashVerifier::verify_prehash`: whether the
/// signature checks; a key or signature that does not parse does not.
#[verifier::external_body]
pub(crate) fn p384_verify_prehash_der(pem: &str, digest: &[u8], sig: &[u8]) -> (r: bool)
    ensures
        r == p384_prehash_verifies(pem@, digest@, sig@),
{
    let Ok(pk) = p384::PublicKey::from_public_key_pem(pem) else { return false };
    let verifying = p384::ecdsa::VerifyingKey::from(&pk);
    let Ok(s) = p384::ecdsa::Signature::from_der(sig) else { return false };
    verifying.verify_prehash(digest, &s).is_ok()
}

/// A fresh P-384 key pair from the thread's random generator
/// (`Generate::generate_from_rng`), as PKCS#8 and SPKI PEM (`LineEnding::LF`),
/// or `None` where encoding fails. The key is random; what is said is that
/// a signature made with the private key checks under the public one.
#[verifier::external_body]
pub(crate) fn p384_generate_pem() -> (r: Option<PemPair>)
    ensures
        r is Some ==> forall|d: Seq<u8>| #[trigger] p384_prehash_signature(r->0.private_pem@, d) is Ok
            ==> p384_prehash_verifies(r->0.public_pem@, d, p384_prehash_signature(r->0.private_pem@, d)->Ok_0),
{
    let sk = <p384::SecretKey as p384::elliptic_curve::Generate>::generate_from_rng(&mut rand::rng());
    let private_pem = sk.to_pkcs8_pem(LineEnding::LF).ok()?.to_string();
    let public_pem = sk.public_key().to_public_key_pem(LineEnding::LF).ok()?;
    Some(PemPair { private_pem, public_pem })
}

/// The P-384 ECDH shared secret of the private key `secret` and the public
/// key of the private key `peer`, both SEC1 encoded: the 48-byte
/// x-coordinate of the agreed point.
pub uninterp spec fn p384_ecdh_of(secret: Seq<u8>, peer: Seq<u8>) -> Seq<u8>;

/// `p384::ecdh::diffie_hellman` of the scalar of the key parsed from `secret`
/// (`SecretKey::from_sec1_der`, `to_nonzero_scalar`) with the public point of
/// the key parsed from `peer` (`public_key`, `as_affine`), as the bytes of
/// `SharedSecret::raw_secret_bytes`; `None` where a key does not parse. As
/// the crate's documentation shows, both participants arrive at the same
/// shared secret.
#[verifier::external_body]
pub(crate) fn p384_ecdh(secret: &[u8], peer: &[u8]) -> (r: Option<Vec<u8>>)
    ensures
        r is Some <==> (p384_sec1_error(secret@) is None && p384_sec1_error(peer@) is None),
        r matches Some(v) ==> v@ == p384_ecdh_of(secret@, peer@) && v@.len() == 48,
        r matches Some(v) ==> v@ == p384_ecdh_of(peer@, secret@),
{
    let a = p384::SecretKey::from_sec1_der(secret).ok()?;
    let b = p384::SecretKey::from_sec1_der(peer).ok()?;
    let shared = p384::ecdh::diffie_hellman(a.to_nonzero_scalar(), b.public_key().as_affine());
    Some(shared.raw_secret_bytes().to_vec())
}

/// An Ed25519 key pair: the private key as PKCS#8 bytes and the raw
/// 32-byte public key.
#[derive(Debug)]
pub struct Ed25519Pair {
    pub private_pkcs8: Vec<u8>,
    pub public_raw: Vec<u8>,
}

/// Whether `ring::signature::Ed25519KeyPair::from_pkcs8_maybe_unchecked`
/// accepts `pkcs8`.
pub uninterp spec fn ed25519_key_ok(pkcs8: Seq<u8>) -> bool;

/// The Ed25519 signature of `msg` under the PKCS#8 key `pkcs8`
/// (deterministic, RFC 8032).
pub uninterp spec fn ed25519_signature_of(pkcs8: Seq<u8>, msg: Seq<u8>) -> Seq<u8>;

/// Whether `sig` is a valid Ed25519 signature of `msg` under the raw public
/// key `public_raw`.
pub uninterp spec fn ed25519_verifies(public_raw: Seq<u8>, msg: Seq<u8>, sig: Seq<u8>) -> bool;

/// `Ed25519KeyPair::generate_pkcs8` with `SystemRandom`, checked with
/// `Ed25519KeyPair::from_pkcs8`, and the pair's `public_key`; `None` where
/// either step fails. The key is random; what is said is that it is
/// accepted for signing and that what it signs checks under its public key.
#[verifier::external_body]
pub(crate) fn ed25519_generate() -> (r: Option<Ed25519Pair>)
    ensures
        r is Some ==> ed25519_key_ok(r->0.private_pkcs8@),
        r is Some ==> forall|m: Seq<u8>| #[trigger] ed25519_verifies(
            r->0.public_raw@,
            m,
            ed25519_signature_of(r->0.private_pkcs8@, m),
        ),
{
    let rng = ring::rand::SystemRandom::new();
    let pkcs8 = ring::signature::Ed25519KeyPair::generate_pkcs8(&rng).ok()?;
    let pair = ring::signature::Ed25519KeyPair::from_pkcs8(pkcs8.as_ref()).ok()?;
    Some(Ed25519Pair { private_pkcs8: pkcs8.as_ref().to_vec(), public_raw: pair.public_key().as_ref().to_vec() })
}

/// `Ed25519KeyPair::from_pkcs8_maybe_unchecked` and `sign`: the 64-byte
/// signature, or `None` where the key is refused.
#[verifier::external_body]
pub(crate) fn ed25519_sign(pkcs8: &[u8], msg: &[u8]) -> (r: Option<Vec<u8>>)
    ensures
        r is Some <==> ed25519_key_ok(pkcs8@),
        r is Some ==> r->0@ == ed25519_signature_of(pkcs8@, msg@) && r->0@.len() == 64,
{
    let pair = ring::signature::Ed25519KeyPair::from_pkcs8_maybe_unchecked(pkcs8).ok()?;
    Some(pair.sign(msg).as_ref().to_vec())
}

/// `UnparsedPublicKey::new(&ED25519, public_raw).verify(msg, sig)`: whether
/// the signature checks.
#[verifier::external_body]
pub(crate) fn ed25519_verify(public_raw: &[u8], msg: &[u8], sig: &[u8]) -> (r: bool)
    ensures
        r == ed25519_verifies(public_raw@, msg@, sig@),
{
    ring::signature::UnparsedPublicKey::new(&ring::signature::ED25519, public_raw).verify(msg, sig).is_ok()
}

} // verus!
