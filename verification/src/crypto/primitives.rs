//! Cryptographic primitives of outside crates, each behind a function whose
//! contract names its result.
//!
//! The hash, MAC and key-derivation results depend on their inputs alone and
//! are named; the cipher contracts add the facts the crates document: the
//! lengths of their outputs, and that decryption gives back what encryption
//! produced.

use vstd::prelude::*;
use sha2::Digest;
use hmac::{KeyInit, Mac};
use aes_gcm::aead::Aead;
use cbc::cipher::{BlockModeDecrypt, BlockModeEncrypt, KeyIvInit, StreamCipher};

verus! {

/// The `md5` digest of `data`.
pub uninterp spec fn md5_of(data: Seq<u8>) -> Seq<u8>;

/// `md5::Md5::digest`: the 16-byte digest of `data`.
#[verifier::external_body]
pub(crate) fn md5_digest(data: &[u8]) -> (r: Vec<u8>)
    ensures
        r@ == md5_of(data@),
        r@.len() == 16,
{
    md5::Md5::digest(data).to_vec()
}

/// The `sha1` digest of `data`.
pub uninterp spec fn sha1_of(data: Seq<u8>) -> Seq<u8>;

/// `sha1::Sha1::digest`: the 20-byte digest of `data`.
#[verifier::external_body]
pub(crate) fn sha1_digest(data: &[u8]) -> (r: Vec<u8>)
    ensures
        r@ == sha1_of(data@),
        r@.len() == 20,
{
    sha1::Sha1::digest(data).to_vec()
}

/// The `sha224` digest of `data`.
pub uninterp spec fn sha224_of(data: Seq<u8>) -> Seq<u8>;

/// `sha2::Sha224::digest`: the 28-byte digest of `data`.
#[verifier::external_body]
pub(crate) fn sha224_digest(data: &[u8]) -> (r: Vec<u8>)
    ensures
        r@ == sha224_of(data@),
        r@.len() == 28,
{
    sha2::Sha224::digest(data).to_vec()
}

/// The `sha256` digest of `data`.
pub uninterp spec fn sha256_of(data: Seq<u8>) -> Seq<u8>;

/// `sha2::Sha256::digest`: the 32-byte digest of `data`.
#[verifier::external_body]
pub(crate) fn sha256_digest(data: &[u8]) -> (r: Vec<u8>)
    ensures
        r@ == sha256_of(data@),
        r@.len() == 32,
{
    sha2::Sha256::digest(data).to_vec()
}

/// The `sha384` digest of `data`.
pub uninterp spec fn sha384_of(data: Seq<u8>) -> Seq<u8>;

/// `sha2::Sha384::digest`: the 48-byte digest of `data`.
#[verifier::external_body]
pub(crate) fn sha384_digest(data: &[u8]) -> (r: Vec<u8>)
    ensures
        r@ == sha384_of(data@),
        r@.len() == 48,
{
    sha2::Sha384::digest(data).to_vec()
}

/// The `sha512` digest of `data`.
pub uninterp spec fn sha512_of(data: Seq<u8>) -> Seq<u8>;

/// `sha2::Sha512::digest`: the 64-byte digest of `data`.
#[verifier::external_body]
pub(crate) fn sha512_digest(data: &[u8]) -> (r: Vec<u8>)
    ensures
        r@ == sha512_of(data@),
        r@.len() == 64,
{
    sha2::Sha512::digest(data).to_vec()
}

/// The HMAC-md5 of `data` under `key`.
pub uninterp spec fn hmac_md5_of(key: Seq<u8>, data: Seq<u8>) -> Seq<u8>;

/// `hmac::Hmac<md5::Md5>`: keyed with `key` (any length is accepted), fed
/// `data`, finalized.
#[verifier::external_body]
pub(crate) fn hmac_md5(key: &[u8], data: &[u8]) -> (r: Vec<u8>)
    ensures
        r@ == hmac_md5_of(key@, data@),
        r@.len() == 16,
{
    match <hmac::Hmac<md5::Md5> as KeyInit>::new_from_slice(key) {
        Ok(mut m) => {
            m.update(data);
            m.finalize().into_bytes().to_vec()
        },
        Err(_) => Vec::new(),
    }
}

/// The HMAC-sha1 of `data` under `key`.
pub uninterp spec fn hmac_sha1_of(key: Seq<u8>, data: Seq<u8>) -> Seq<u8>;

/// `hmac::Hmac<sha1::Sha1>`: keyed with `key` (any length is accepted), fed
/// `data`, finalized.
#[verifier::external_body]
pub(crate) fn hmac_sha1(key: &[u8], data: &[u8]) -> (r: Vec<u8>)
    ensures
        r@ == hmac_sha1_of(key@, data@),
        r@.len() == 20,
{
    match <hmac::Hmac<sha1::Sha1> as KeyInit>::new_from_slice(key) {
        Ok(mut m) => {
            m.update(data);
            m.finalize().into_bytes().to_vec()
        },
        Err(_) => Vec::new(),
    }
}

/// The HMAC-sha224 of `data` under `key`.
pub uninterp spec fn hmac_sha224_of(key: Seq<u8>, data: Seq<u8>) -> Seq<u8>;

/// `hmac::Hmac<sha2::Sha224>`: keyed with `key` (any length is accepted), fed
/// `data`, finalized.
#[verifier::external_body]
pub(crate) fn hmac_sha224(key: &[u8], data: &[u8]) -> (r: Vec<u8>)
    ensures
        r@ == hmac_sha224_of(key@, data@),
        r@.len() == 28,
{
    match <hmac::Hmac<sha2::Sha224> as KeyInit>::new_from_slice(key) {
        Ok(mut m) => {
            m.update(data);
            m.finalize().into_bytes().to_vec()
        },
        Err(_) => Vec::new(),
    }
}

/// The HMAC-sha256 of `data` under `key`.
pub uninterp spec fn hmac_sha256_of(key: Seq<u8>, data: Seq<u8>) -> Seq<u8>;

/// `hmac::Hmac<sha2::Sha256>`: keyed with `key` (any length is accepted), fed
/// `data`, finalized.
#[verifier::external_body]
pub(crate) fn hmac_sha256(key: &[u8], data: &[u8]) -> (r: Vec<u8>)
    ensures
        r@ == hmac_sha256_of(key@, data@),
        r@.len() == 32,
{
    match <hmac::Hmac<sha2::Sha256> as KeyInit>::new_from_slice(key) {
        Ok(mut m) => {
            m.update(data);
            m.finalize().into_bytes().to_vec()
        },
        Err(_) => Vec::new(),
    }
}

/// The HMAC-sha384 of `data` under `key`.
pub uninterp spec fn hmac_sha384_of(key: Seq<u8>, data: Seq<u8>) -> Seq<u8>;

/// `hmac::Hmac<sha2::Sha384>`: keyed with `key` (any length is accepted), fed
/// `data`, finalized.
#[verifier::external_body]
pub(crate) fn hmac_sha384(key: &[u8], data: &[u8]) -> (r: Vec<u8>)
    ensures
        r@ == hmac_sha384_of(key@, data@),
        r@.len() == 48,
{
    match <hmac::Hmac<sha2::Sha384> as KeyInit>::new_from_slice(key) {
        Ok(mut m) => {
            m.update(data);
            m.finalize().into_bytes().to_vec()
        },
        Err(_) => Vec::new(),
    }
}

/// The HMAC-sha512 of `data` under `key`.
pub uninterp spec fn hmac_sha512_of(key: Seq<u8>, data: Seq<u8>) -> Seq<u8>;

/// `hmac::Hmac<sha2::Sha512>`: keyed with `key` (any length is accepted), fed
/// `data`, finalized.
#[verifier::external_body]
pub(crate) fn hmac_sha512(key: &[u8], data: &[u8]) -> (r: Vec<u8>)
    ensures
        r@ == hmac_sha512_of(key@, data@),
        r@.len() == 64,
{
    match <hmac::Hmac<sha2::Sha512> as KeyInit>::new_from_slice(key) {
        Ok(mut m) => {
            m.update(data);
            m.finalize().into_bytes().to_vec()
        },
        Err(_) => Vec::new(),
    }
}

/// The PBKDF2-HMAC-md5 key of `len` bytes.
pub uninterp spec fn pbkdf2_md5_of(password: Seq<u8>, salt: Seq<u8>, rounds: u32, len: usize) -> Seq<u8>;

/// `pbkdf2::pbkdf2_hmac::<md5::Md5>`: a derived key of `len` bytes.
#[verifier::external_body]
pub(crate) fn pbkdf2_md5(password: &[u8], salt: &[u8], rounds: u32, len: usize) -> (r: Vec<u8>)
    ensures
        r@ == pbkdf2_md5_of(password@, salt@, rounds, len),
        r@.len() == len,
{
    let mut out = vec![0u8; len];
    pbkdf2::pbkdf2_hmac::<md5::Md5>(password, salt, rounds, &mut out);
    out
}

/// The PBKDF2-HMAC-sha1 key of `len` bytes.
pub uninterp spec fn pbkdf2_sha1_of(password: Seq<u8>, salt: Seq<u8>, rounds: u32, len: usize) -> Seq<u8>;

/// `pbkdf2::pbkdf2_hmac::<sha1::Sha1>`: a derived key of `len` bytes.
#[verifier::external_body]
pub(crate) fn pbkdf2_sha1(password: &[u8], salt: &[u8], rounds: u32, len: usize) -> (r: Vec<u8>)
    ensures
        r@ == pbkdf2_sha1_of(password@, salt@, rounds, len),
        r@.len() == len,
{
    let mut out = vec![0u8; len];
    pbkdf2::pbkdf2_hmac::<sha1::Sha1>(password, salt, rounds, &mut out);
    out
}

/// The PBKDF2-HMAC-sha224 key of `len` bytes.
pub uninterp spec fn pbkdf2_sha224_of(password: Seq<u8>, salt: Seq<u8>, rounds: u32, len: usize) -> Seq<u8>;

/// `pbkdf2::pbkdf2_hmac::<sha2::Sha224>`: a derived key of `len` bytes.
#[verifier::external_body]
pub(crate) fn pbkdf2_sha224(password: &[u8], salt: &[u8], rounds: u32, len: usize) -> (r: Vec<u8>)
    ensures
        r@ == pbkdf2_sha224_of(password@, salt@, rounds, len),
        r@.len() == len,
{
    let mut out = vec![0u8; len];
    pbkdf2::pbkdf2_hmac::<sha2::Sha224>(password, salt, rounds, &mut out);
    out
}

/// The PBKDF2-HMAC-sha256 key of `len` bytes.
pub uninterp spec fn pbkdf2_sha256_of(password: Seq<u8>, salt: Seq<u8>, rounds: u32, len: usize) -> Seq<u8>;

/// `pbkdf2::pbkdf2_hmac::<sha2::Sha256>`: a derived key of `len` bytes.
#[verifier::external_body]
pub(crate) fn pbkdf2_sha256(password: &[u8], salt: &[u8], rounds: u32, len: usize) -> (r: Vec<u8>)
    ensures
        r@ == pbkdf2_sha256_of(password@, salt@, rounds, len),
        r@.len() == len,
{
    let mut out = vec![0u8; len];
    pbkdf2::pbkdf2_hmac::<sha2::Sha256>(password, salt, rounds, &mut out);
    out
}

/// The PBKDF2-HMAC-sha384 key of `len` bytes.
pub uninterp spec fn pbkdf2_sha384_of(password: Seq<u8>, salt: Seq<u8>, rounds: u32, len: usize) -> Seq<u8>;

/// `pbkdf2::pbkdf2_hmac::<sha2::Sha384>`: a derived key of `len` bytes.
#[verifier::external_body]
pub(crate) fn pbkdf2_sha384(password: &[u8], salt: &[u8], rounds: u32, len: usize) -> (r: Vec<u8>)
    ensures
        r@ == pbkdf2_sha384_of(password@, salt@, rounds, len),
        r@.len() == len,
{
    let mut out = vec![0u8; len];
    pbkdf2::pbkdf2_hmac::<sha2::Sha384>(password, salt, rounds, &mut out);
    out
}

/// The PBKDF2-HMAC-sha512 key of `len` bytes.
pub uninterp spec fn pbkdf2_sha512_of(password: Seq<u8>, salt: Seq<u8>, rounds: u32, len: usize) -> Seq<u8>;

/// `pbkdf2::pbkdf2_hmac::<sha2::Sha512>`: a derived key of `len` bytes.
#[verifier::external_body]
pub(crate) fn pbkdf2_sha512(password: &[u8], salt: &[u8], rounds: u32, len: usize) -> (r: Vec<u8>)
    ensures
        r@ == pbkdf2_sha512_of(password@, salt@, rounds, len),
        r@.len() == len,
{
    let mut out = vec![0u8; len];
    pbkdf2::pbkdf2_hmac::<sha2::Sha512>(password, salt, rounds, &mut out);
    out
}

/// The HKDF-md5 output of `len` bytes, or `None` where `len` exceeds
/// what the hash allows.
pub uninterp spec fn hkdf_md5_of(salt: Option<Seq<u8>>, ikm: Seq<u8>, info: Seq<u8>, len: usize) -> Option<Seq<u8>>;

/// `hkdf::Hkdf::<md5::Md5>::new(salt, ikm).expand(info, ..)`: `len` bytes of
/// output; the expansion refuses more than 255 hash lengths (16 bytes each).
#[verifier::external_body]
pub(crate) fn hkdf_md5(salt: Option<&[u8]>, ikm: &[u8], info: &[u8], len: usize) -> (r: Option<Vec<u8>>)
    ensures
        r matches Some(v) ==> hkdf_md5_of(opt_bytes(salt), ikm@, info@, len) == Some(v@) && v@.len() == len,
        r is None ==> hkdf_md5_of(opt_bytes(salt), ikm@, info@, len) is None,
        r is None <==> len > 255 * 16,
{
    let mut out = vec![0u8; len];
    match hkdf::Hkdf::<md5::Md5>::new(salt, ikm).expand(info, &mut out) {
        Ok(()) => Some(out),
        Err(_) => None,
    }
}

/// The HKDF-sha1 output of `len` bytes, or `None` where `len` exceeds
/// what the hash allows.
pub uninterp spec fn hkdf_sha1_of(salt: Option<Seq<u8>>, ikm: Seq<u8>, info: Seq<u8>, len: usize) -> Option<Seq<u8>>;

/// `hkdf::Hkdf::<sha1::Sha1>::new(salt, ikm).expand(info, ..)`: `len` bytes of
/// output; the expansion refuses more than 255 hash lengths (20 bytes each).
#[verifier::external_body]
pub(crate) fn hkdf_sha1(salt: Option<&[u8]>, ikm: &[u8], info: &[u8], len: usize) -> (r: Option<Vec<u8>>)
    ensures
        r matches Some(v) ==> hkdf_sha1_of(opt_bytes(salt), ikm@, info@, len) == Some(v@) && v@.len() == len,
        r is None ==> hkdf_sha1_of(opt_bytes(salt), ikm@, info@, len) is None,
        r is None <==> len > 255 * 20,
{
    let mut out = vec![0u8; len];
    match hkdf::Hkdf::<sha1::Sha1>::new(salt, ikm).expand(info, &mut out) {
        Ok(()) => Some(out),
        Err(_) => None,
    }
}

/// The HKDF-sha224 output of `len` bytes, or `None` where `len` exceeds
/// what the hash allows.
pub uninterp spec fn hkdf_sha224_of(salt: Option<Seq<u8>>, ikm: Seq<u8>, info: Seq<u8>, len: usize) -> Option<Seq<u8>>;

/// `hkdf::Hkdf::<sha2::Sha224>::new(salt, ikm).expand(info, ..)`: `len` bytes of
/// output; the expansion refuses more than 255 hash lengths (28 bytes each).
#[verifier::external_body]
pub(crate) fn hkdf_sha224(salt: Option<&[u8]>, ikm: &[u8], info: &[u8], len: usize) -> (r: Option<Vec<u8>>)
    ensures
        r matches Some(v) ==> hkdf_sha224_of(opt_bytes(salt), ikm@, info@, len) == Some(v@) && v@.len() == len,
        r is None ==> hkdf_sha224_of(opt_bytes(salt), ikm@, info@, len) is None,
        r is None <==> len > 255 * 28,
{
    let mut out = vec![0u8; len];
    match hkdf::Hkdf::<sha2::Sha224>::new(salt, ikm).expand(info, &mut out) {
        Ok(()) => Some(out),
        Err(_) => None,
    }
}

/// The HKDF-sha256 output of `len` bytes, or `None` where `len` exceeds
/// what the hash allows.
pub uninterp spec fn hkdf_sha256_of(salt: Option<Seq<u8>>, ikm: Seq<u8>, info: Seq<u8>, len: usize) -> Option<Seq<u8>>;

/// `hkdf::Hkdf::<sha2::Sha256>::new(salt, ikm).expand(info, ..)`: `len` bytes of
/// output; the expansion refuses more than 255 hash lengths (32 bytes each).
#[verifier::external_body]
pub(crate) fn hkdf_sha256(salt: Option<&[u8]>, ikm: &[u8], info: &[u8], len: usize) -> (r: Option<Vec<u8>>)
    ensures
        r matches Some(v) ==> hkdf_sha256_of(opt_bytes(salt), ikm@, info@, len) == Some(v@) && v@.len() == len,
        r is None ==> hkdf_sha256_of(opt_bytes(salt), ikm@, info@, len) is None,
        r is None <==> len > 255 * 32,
{
    let mut out = vec![0u8; len];
    match hkdf::Hkdf::<sha2::Sha256>::new(salt, ikm).expand(info, &mut out) {
        Ok(()) => Some(out),
        Err(_) => None,
    }
}

/// The HKDF-sha384 output of `len` bytes, or `None` where `len` exceeds
/// what the hash allows.
pub uninterp spec fn hkdf_sha384_of(salt: Option<Seq<u8>>, ikm: Seq<u8>, info: Seq<u8>, len: usize) -> Option<Seq<u8>>;

/// `hkdf::Hkdf::<sha2::Sha384>::new(salt, ikm).expand(info, ..)`: `len` bytes of
/// output; the expansion refuses more than 255 hash lengths (48 bytes each).
#[verifier::external_body]
pub(crate) fn hkdf_sha384(salt: Option<&[u8]>, ikm: &[u8], info: &[u8], len: usize) -> (r: Option<Vec<u8>>)
    ensures
        r matches Some(v) ==> hkdf_sha384_of(opt_bytes(salt), ikm@, info@, len) == Some(v@) && v@.len() == len,
        r is None ==> hkdf_sha384_of(opt_bytes(salt), ikm@, info@, len) is None,
        r is None <==> len > 255 * 48,
{
    let mut out = vec![0u8; len];
    match hkdf::Hkdf::<sha2::Sha384>::new(salt, ikm).expand(info, &mut out) {
        Ok(()) => Some(out),
        Err(_) => None,
    }
}

/// The HKDF-sha512 output of `len` bytes, or `None` where `len` exceeds
/// what the hash allows.
pub uninterp spec fn hkdf_sha512_of(salt: Option<Seq<u8>>, ikm: Seq<u8>, info: Seq<u8>, len: usize) -> Option<Seq<u8>>;

/// `hkdf::Hkdf::<sha2::Sha512>::new(salt, ikm).expand(info, ..)`: `len` bytes of
/// output; the expansion refuses more than 255 hash lengths (64 bytes each).
#[verifier::external_body]
pub(crate) fn hkdf_sha512(salt: Option<&[u8]>, ikm: &[u8], info: &[u8], len: usize) -> (r: Option<Vec<u8>>)
    ensures
        r matches Some(v) ==> hkdf_sha512_of(opt_bytes(salt), ikm@, info@, len) == Some(v@) && v@.len() == len,
        r is None ==> hkdf_sha512_of(opt_bytes(salt), ikm@, info@, len) is None,
        r is None <==> len > 255 * 64,
{
    let mut out = vec![0u8; len];
    match hkdf::Hkdf::<sha2::Sha512>::new(salt, ikm).expand(info, &mut out) {
        Ok(()) => Some(out),
        Err(_) => None,
    }
}

/// The view of an optional byte slice.
pub open spec fn opt_bytes(o: Option<&[u8]>) -> Option<Seq<u8>> {
    match o {
        Some(s) => Some(s@),
        None => None,
    }
}

/// The scrypt key of `len` bytes with cost `2^log_n`, block size `r` and
/// parallelism `p`, or `None` where the parameters are refused.
pub uninterp spec fn scrypt_of(password: Seq<u8>, salt: Seq<u8>, log_n: u8, r: u32, p: u32, len: usize) -> Option<Seq<u8>>;

/// `scrypt::Params::new(log_n, r, p)` and `scrypt::scrypt`: a derived key of
/// `len` bytes, or `None` where the parameters or the length are refused.
/// `Params::new` multiplies `r` by `p` in `u32`, so the product must fit.
#[verifier::external_body]
pub(crate) fn scrypt_derive(password: &[u8], salt: &[u8], log_n: u8, r: u32, p: u32, len: usize) -> (out: Option<Vec<u8>>)
    requires
        r * p <= u32::MAX,
    ensures
        out matches Some(v) ==> scrypt_of(password@, salt@, log_n, r, p, len) == Some(v@) && v@.len() == len,
        out is None ==> scrypt_of(password@, salt@, log_n, r, p, len) is None,
{
    let params = scrypt::Params::new(log_n, r, p).ok()?;
    let mut buf = vec![0u8; len];
    scrypt::scrypt(password, salt, &params, &mut buf).ok()?;
    Some(buf)
}

/// `getrandom::fill`: `n` bytes from the system's entropy source, or `None`
/// where that source fails. Nothing is said of the bytes.
#[verifier::external_body]
pub(crate) fn random_bytes(n: usize) -> (r: Option<Vec<u8>>)
    ensures
        r matches Some(v) ==> v@.len() == n,
{
    let mut out = vec![0u8; n];
    match getrandom::fill(&mut out) {
        Ok(()) => Some(out),
        Err(_) => None,
    }
}

/// AES-128-GCM sealing of `data` with `aad`: ciphertext then 16-byte tag,
/// or `None` where the input is too long.
pub uninterp spec fn gcm128_seal_of(key: Seq<u8>, iv: Seq<u8>, data: Seq<u8>, aad: Seq<u8>) -> Option<Seq<u8>>;

/// `Aead::encrypt` of `aes_gcm::Aes128Gcm` with a 12-byte nonce: the ciphertext is as
/// long as `data`, followed by the 16-byte tag.
#[verifier::external_body]
pub(crate) fn gcm128_seal(key: &[u8], iv: &[u8], data: &[u8], aad: &[u8]) -> (r: Option<Vec<u8>>)
    requires
        key@.len() == 16,
        iv@.len() == 12,
    ensures
        r matches Some(v) ==> gcm128_seal_of(key@, iv@, data@, aad@) == Some(v@) && v@.len() == data@.len() + 16,
        r is None ==> gcm128_seal_of(key@, iv@, data@, aad@) is None,
{
    let cipher = <aes_gcm::Aes128Gcm as aes_gcm::KeyInit>::new_from_slice(key).ok()?;
    let nonce: &aes_gcm::Nonce<aes_gcm::aead::consts::U12> = iv.try_into().ok()?;
    cipher.encrypt(nonce, aes_gcm::aead::Payload { msg: data, aad }).ok()
}

/// AES-128-GCM opening of ciphertext-and-tag `data` with `aad`, or `None`
/// where it does not authenticate.
pub uninterp spec fn gcm128_open_of(key: Seq<u8>, iv: Seq<u8>, data: Seq<u8>, aad: Seq<u8>) -> Option<Seq<u8>>;

/// `Aead::decrypt` of `aes_gcm::Aes128Gcm` with a 12-byte nonce. What sealing produced
/// opens to the sealed text.
#[verifier::external_body]
pub(crate) fn gcm128_open(key: &[u8], iv: &[u8], data: &[u8], aad: &[u8]) -> (r: Option<Vec<u8>>)
    requires
        key@.len() == 16,
        iv@.len() == 12,
    ensures
        r matches Some(v) ==> gcm128_open_of(key@, iv@, data@, aad@) == Some(v@),
        r is None ==> gcm128_open_of(key@, iv@, data@, aad@) is None,
        forall|p: Seq<u8>| #[trigger] gcm128_seal_of(key@, iv@, p, aad@) == Some(data@) ==> r is Some && r->0@ == p,
{
    let cipher = <aes_gcm::Aes128Gcm as aes_gcm::KeyInit>::new_from_slice(key).ok()?;
    let nonce: &aes_gcm::Nonce<aes_gcm::aead::consts::U12> = iv.try_into().ok()?;
    cipher.decrypt(nonce, aes_gcm::aead::Payload { msg: data, aad }).ok()
}

/// AES-128-CBC encryption of `data` with PKCS#7 padding.
pub uninterp spec fn cbc128_encrypt_of(key: Seq<u8>, iv: Seq<u8>, data: Seq<u8>) -> Seq<u8>;

/// `cbc::Encryptor::<aes::Aes128>` with `encrypt_padded_vec::<Pkcs7>`.
#[verifier::external_body]
pub(crate) fn cbc128_encrypt(key: &[u8], iv: &[u8], data: &[u8]) -> (r: Vec<u8>)
    requires
        key@.len() == 16,
        iv@.len() == 16,
    ensures
        r@ == cbc128_encrypt_of(key@, iv@, data@),
{
    match cbc::Encryptor::<aes::Aes128>::new_from_slices(key, iv) {
        Ok(enc) => enc.encrypt_padded_vec::<cbc::cipher::block_padding::Pkcs7>(data),
        Err(_) => Vec::new(),
    }
}

/// AES-128-CBC decryption with PKCS#7 unpadding, or `None` where the
/// padding is malformed.
pub uninterp spec fn cbc128_decrypt_of(key: Seq<u8>, iv: Seq<u8>, data: Seq<u8>) -> Option<Seq<u8>>;

/// `cbc::Decryptor::<aes::Aes128>` with `decrypt_padded_vec::<Pkcs7>`. What
/// encryption produced decrypts to the encrypted text.
#[verifier::external_body]
pub(crate) fn cbc128_decrypt(key: &[u8], iv: &[u8], data: &[u8]) -> (r: Option<Vec<u8>>)
    requires
        key@.len() == 16,
        iv@.len() == 16,
    ensures
        r matches Some(v) ==> cbc128_decrypt_of(key@, iv@, data@) == Some(v@),
        r is None ==> cbc128_decrypt_of(key@, iv@, data@) is None,
        forall|p: Seq<u8>| #[trigger] cbc128_encrypt_of(key@, iv@, p) == data@ ==> r is Some && r->0@ == p,
{
    let dec = cbc::Decryptor::<aes::Aes128>::new_from_slices(key, iv).ok()?;
    dec.decrypt_padded_vec::<cbc::cipher::block_padding::Pkcs7>(data).ok()
}

/// The AES-128-CTR keystream applied to `data` (big-endian 128-bit counter).
pub uninterp spec fn ctr128_of(key: Seq<u8>, iv: Seq<u8>, data: Seq<u8>) -> Seq<u8>;

/// `ctr::Ctr128BE::<aes::Aes128>` with `apply_keystream`: output as long as the
/// input; applying the keystream twice gives back the input.
#[verifier::external_body]
pub(crate) fn ctr128_apply(key: &[u8], iv: &[u8], data: &[u8]) -> (r: Vec<u8>)
    requires
        key@.len() == 16,
        iv@.len() == 16,
    ensures
        r@ == ctr128_of(key@, iv@, data@),
        r@.len() == data@.len(),
        forall|p: Seq<u8>| #[trigger] ctr128_of(key@, iv@, p) == data@ ==> r@ == p,
{
    let mut buf = data.to_vec();
    if let Ok(mut c) = ctr::Ctr128BE::<aes::Aes128>::new_from_slices(key, iv) {
        c.apply_keystream(&mut buf);
    }
    buf
}

/// AES-192-GCM sealing of `data` with `aad`: ciphertext then 16-byte tag,
/// or `None` where the input is too long.
pub uninterp spec fn gcm192_seal_of(key: Seq<u8>, iv: Seq<u8>, data: Seq<u8>, aad: Seq<u8>) -> Option<Seq<u8>>;

/// `Aead::encrypt` of `aes_gcm::AesGcm<aes::Aes192, aes_gcm::aead::consts::U12>` with a 12-byte nonce: the ciphertext is as
/// long as `data`, followed by the 16-byte tag.
#[verifier::external_body]
pub(crate) fn gcm192_seal(key: &[u8], iv: &[u8], data: &[u8], aad: &[u8]) -> (r: Option<Vec<u8>>)
    requires
        key@.len() == 24,
        iv@.len() == 12,
    ensures
        r matches Some(v) ==> gcm192_seal_of(key@, iv@, data@, aad@) == Some(v@) && v@.len() == data@.len() + 16,
        r is None ==> gcm192_seal_of(key@, iv@, data@, aad@) is None,
{
    let cipher = <aes_gcm::AesGcm<aes::Aes192, aes_gcm::aead::consts::U12> as aes_gcm::KeyInit>::new_from_slice(key).ok()?;
    let nonce: &aes_gcm::Nonce<aes_gcm::aead::consts::U12> = iv.try_into().ok()?;
    cipher.encrypt(nonce, aes_gcm::aead::Payload { msg: data, aad }).ok()
}

/// AES-192-GCM opening of ciphertext-and-tag `data` with `aad`, or `None`
/// where it does not authenticate.
pub uninterp spec fn gcm192_open_of(key: Seq<u8>, iv: Seq<u8>, data: Seq<u8>, aad: Seq<u8>) -> Option<Seq<u8>>;

/// `Aead::decrypt` of `aes_gcm::AesGcm<aes::Aes192, aes_gcm::aead::consts::U12>` with a 12-byte nonce. What sealing produced
/// opens to the sealed text.
#[verifier::external_body]
pub(crate) fn gcm192_open(key: &[u8], iv: &[u8], data: &[u8], aad: &[u8]) -> (r: Option<Vec<u8>>)
    requires
        key@.len() == 24,
        iv@.len() == 12,
    ensures
        r matches Some(v) ==> gcm192_open_of(key@, iv@, data@, aad@) == Some(v@),
        r is None ==> gcm192_open_of(key@, iv@, data@, aad@) is None,
        forall|p: Seq<u8>| #[trigger] gcm192_seal_of(key@, iv@, p, aad@) == Some(data@) ==> r is Some && r->0@ == p,
{
    let cipher = <aes_gcm::AesGcm<aes::Aes192, aes_gcm::aead::consts::U12> as aes_gcm::KeyInit>::new_from_slice(key).ok()?;
    let nonce: &aes_gcm::Nonce<aes_gcm::aead::consts::U12> = iv.try_into().ok()?;
    cipher.decrypt(nonce, aes_gcm::aead::Payload { msg: data, aad }).ok()
}

/// AES-192-CBC encryption of `data` with PKCS#7 padding.
pub uninterp spec fn cbc192_encrypt_of(key: Seq<u8>, iv: Seq<u8>, data: Seq<u8>) -> Seq<u8>;

/// `cbc::Encryptor::<aes::Aes192>` with `encrypt_padded_vec::<Pkcs7>`.
#[verifier::external_body]
pub(crate) fn cbc192_encrypt(key: &[u8], iv: &[u8], data: &[u8]) -> (r: Vec<u8>)
    requires
        key@.len() == 24,
        iv@.len() == 16,
    ensures
        r@ == cbc192_encrypt_of(key@, iv@, data@),
{
    match cbc::Encryptor::<aes::Aes192>::new_from_slices(key, iv) {
        Ok(enc) => enc.encrypt_padded_vec::<cbc::cipher::block_padding::Pkcs7>(data),
        Err(_) => Vec::new(),
    }
}

/// AES-192-CBC decryption with PKCS#7 unpadding, or `None` where the
/// padding is malformed.
pub uninterp spec fn cbc192_decrypt_of(key: Seq<u8>, iv: Seq<u8>, data: Seq<u8>) -> Option<Seq<u8>>;

/// `cbc::Decryptor::<aes::Aes192>` with `decrypt_padded_vec::<Pkcs7>`. What
/// encryption produced decrypts to the encrypted text.
#[verifier::external_body]
pub(crate) fn cbc192_decrypt(key: &[u8], iv: &[u8], data: &[u8]) -> (r: Option<Vec<u8>>)
    requires
        key@.len() == 24,
        iv@.len() == 16,
    ensures
        r matches Some(v) ==> cbc192_decrypt_of(key@, iv@, data@) == Some(v@),
        r is None ==> cbc192_decrypt_of(key@, iv@, data@) is None,
        forall|p: Seq<u8>| #[trigger] cbc192_encrypt_of(key@, iv@, p) == data@ ==> r is Some && r->0@ == p,
{
    let dec = cbc::Decryptor::<aes::Aes192>::new_from_slices(key, iv).ok()?;
    dec.decrypt_padded_vec::<cbc::cipher::block_padding::Pkcs7>(data).ok()
}

/// The AES-192-CTR keystream applied to `data` (big-endian 128-bit counter).
pub uninterp spec fn ctr192_of(key: Seq<u8>, iv: Seq<u8>, data: Seq<u8>) -> Seq<u8>;

/// `ctr::Ctr128BE::<aes::Aes192>` with `apply_keystream`: output as long as the
/// input; applying the keystream twice gives back the input.
#[verifier::external_body]
pub(crate) fn ctr192_apply(key: &[u8], iv: &[u8], data: &[u8]) -> (r: Vec<u8>)
    requires
        key@.len() == 24,
        iv@.len() == 16,
    ensures
        r@ == ctr192_of(key@, iv@, data@),
        r@.len() == data@.len(),
        forall|p: Seq<u8>| #[trigger] ctr192_of(key@, iv@, p) == data@ ==> r@ == p,
{
    let mut buf = data.to_vec();
    if let Ok(mut c) = ctr::Ctr128BE::<aes::Aes192>::new_from_slices(key, iv) {
        c.apply_keystream(&mut buf);
    }
    buf
}

/// AES-256-GCM sealing of `data` with `aad`: ciphertext then 16-byte tag,
/// or `None` where the input is too long.
pub uninterp spec fn gcm256_seal_of(key: Seq<u8>, iv: Seq<u8>, data: Seq<u8>, aad: Seq<u8>) -> Option<Seq<u8>>;

/// `Aead::encrypt` of `aes_gcm::Aes256Gcm` with a 12-byte nonce: the ciphertext is as
/// long as `data`, followed by the 16-byte tag.
#[verifier::external_body]
pub(crate) fn gcm256_seal(key: &[u8], iv: &[u8], data: &[u8], aad: &[u8]) -> (r: Option<Vec<u8>>)
    requires
        key@.len() == 32,
        iv@.len() == 12,
    ensures
        r matches Some(v) ==> gcm256_seal_of(key@, iv@, data@, aad@) == Some(v@) && v@.len() == data@.len() + 16,
        r is None ==> gcm256_seal_of(key@, iv@, data@, aad@) is None,
{
    let cipher = <aes_gcm::Aes256Gcm as aes_gcm::KeyInit>::new_from_slice(key).ok()?;
    let nonce: &aes_gcm::Nonce<aes_gcm::aead::consts::U12> = iv.try_into().ok()?;
    cipher.encrypt(nonce, aes_gcm::aead::Payload { msg: data, aad }).ok()
}

/// AES-256-GCM opening of ciphertext-and-tag `data` with `aad`, or `None`
/// where it does not authenticate.
pub uninterp spec fn gcm256_open_of(key: Seq<u8>, iv: Seq<u8>, data: Seq<u8>, aad: Seq<u8>) -> Option<Seq<u8>>;

/// `Aead::decrypt` of `aes_gcm::Aes256Gcm` with a 12-byte nonce. What sealing produced
/// opens to the sealed text.
#[verifier::external_body]
pub(crate) fn gcm256_open(key: &[u8], iv: &[u8], data: &[u8], aad: &[u8]) -> (r: Option<Vec<u8>>)
    requires
        key@.len() == 32,
        iv@.len() == 12,
    ensures
        r matches Some(v) ==> gcm256_open_of(key@, iv@, data@, aad@) == Some(v@),
        r is None ==> gcm256_open_of(key@, iv@, data@, aad@) is None,
        forall|p: Seq<u8>| #[trigger] gcm256_seal_of(key@, iv@, p, aad@) == Some(data@) ==> r is Some && r->0@ == p,
{
    let cipher = <aes_gcm::Aes256Gcm as aes_gcm::KeyInit>::new_from_slice(key).ok()?;
    let nonce: &aes_gcm::Nonce<aes_gcm::aead::consts::U12> = iv.try_into().ok()?;
    cipher.decrypt(nonce, aes_gcm::aead::Payload { msg: data, aad }).ok()
}

/// AES-256-CBC encryption of `data` with PKCS#7 padding.
pub uninterp spec fn cbc256_encrypt_of(key: Seq<u8>, iv: Seq<u8>, data: Seq<u8>) -> Seq<u8>;

/// `cbc::Encryptor::<aes::Aes256>` with `encrypt_padded_vec::<Pkcs7>`.
#[verifier::external_body]
pub(crate) fn cbc256_encrypt(key: &[u8], iv: &[u8], data: &[u8]) -> (r: Vec<u8>)
    requires
        key@.len() == 32,
        iv@.len() == 16,
    ensures
        r@ == cbc256_encrypt_of(key@, iv@, data@),
{
    match cbc::Encryptor::<aes::Aes256>::new_from_slices(key, iv) {
        Ok(enc) => enc.encrypt_padded_vec::<cbc::cipher::block_padding::Pkcs7>(data),
        Err(_) => Vec::new(),
    }
}

/// AES-256-CBC decryption with PKCS#7 unpadding, or `None` where the
/// padding is malformed.
pub uninterp spec fn cbc256_decrypt_of(key: Seq<u8>, iv: Seq<u8>, data: Seq<u8>) -> Option<Seq<u8>>;

/// `cbc::Decryptor::<aes::Aes256>` with `decrypt_padded_vec::<Pkcs7>`. What
/// encryption produced decrypts to the encrypted text.
#[verifier::external_body]
pub(crate) fn cbc256_decrypt(key: &[u8], iv: &[u8], data: &[u8]) -> (r: Option<Vec<u8>>)
    requires
        key@.len() == 32,
        iv@.len() == 16,
    ensures
        r matches Some(v) ==> cbc256_decrypt_of(key@, iv@, data@) == Some(v@),
        r is None ==> cbc256_decrypt_of(key@, iv@, data@) is None,
        forall|p: Seq<u8>| #[trigger] cbc256_encrypt_of(key@, iv@, p) == data@ ==> r is Some && r->0@ == p,
{
    let dec = cbc::Decryptor::<aes::Aes256>::new_from_slices(key, iv).ok()?;
    dec.decrypt_padded_vec::<cbc::cipher::block_padding::Pkcs7>(data).ok()
}

/// The AES-256-CTR keystream applied to `data` (big-endian 128-bit counter).
pub uninterp spec fn ctr256_of(key: Seq<u8>, iv: Seq<u8>, data: Seq<u8>) -> Seq<u8>;

/// `ctr::Ctr128BE::<aes::Aes256>` with `apply_keystream`: output as long as the
/// input; applying the keystream twice gives back the input.
#[verifier::external_body]
pub(crate) fn ctr256_apply(key: &[u8], iv: &[u8], data: &[u8]) -> (r: Vec<u8>)
    requires
        key@.len() == 32,
        iv@.len() == 16,
    ensures
        r@ == ctr256_of(key@, iv@, data@),
        r@.len() == data@.len(),
        forall|p: Seq<u8>| #[trigger] ctr256_of(key@, iv@, p) == data@ ==> r@ == p,
{
    let mut buf = data.to_vec();
    if let Ok(mut c) = ctr::Ctr128BE::<aes::Aes256>::new_from_slices(key, iv) {
        c.apply_keystream(&mut buf);
    }
    buf
}

} // verus!
