//! The `node:crypto` operations: digests, MACs, key derivation, random
//! bytes, constant-time comparison and the AES ciphers.

use vstd::prelude::*;
use vstd::string::StringExecFns;
use crate::text::{str_eq, decimal_string};
use crate::crypto::primitives::{
    md5_of, sha1_of, sha224_of, sha256_of, sha384_of, sha512_of,
    md5_digest, sha1_digest, sha224_digest, sha256_digest, sha384_digest, sha512_digest,
    hmac_md5_of, hmac_sha1_of, hmac_sha224_of, hmac_sha256_of, hmac_sha384_of, hmac_sha512_of,
    hmac_md5, hmac_sha1, hmac_sha224, hmac_sha256, hmac_sha384, hmac_sha512,
    pbkdf2_md5_of, pbkdf2_sha1_of, pbkdf2_sha224_of, pbkdf2_sha256_of, pbkdf2_sha384_of, pbkdf2_sha512_of,
    pbkdf2_md5, pbkdf2_sha1, pbkdf2_sha224, pbkdf2_sha256, pbkdf2_sha384, pbkdf2_sha512,
    hkdf_md5_of, hkdf_sha1_of, hkdf_sha224_of, hkdf_sha256_of, hkdf_sha384_of, hkdf_sha512_of,
    hkdf_md5, hkdf_sha1, hkdf_sha224, hkdf_sha256, hkdf_sha384, hkdf_sha512,
    opt_bytes, scrypt_of, scrypt_derive, random_bytes,
};

use crate::crypto::curves::{
    PemPair, p256_prehash_signature, p256_prehash_verifies, p384_prehash_signature, p384_prehash_verifies,
    p256_sign_prehash_der, p256_verify_prehash_der, p256_generate_pem,
    p384_sign_prehash_der, p384_verify_prehash_der, p384_generate_pem,
    Ed25519Pair, ed25519_key_ok, ed25519_signature_of, ed25519_verifies,
    ed25519_generate, ed25519_sign, ed25519_verify,
};

verus! {

/// An error thrown to scripts: a Node error code and a message.
#[derive(Debug)]
pub struct CryptoHookError {
    pub code: String,
    pub message: String,
}

/// An error with the given code and message.
fn hook_error(code: &str, message: String) -> (r: CryptoHookError)
    ensures
        r.code@ == code@,
        r.message@ == message@,
{
    CryptoHookError { code: code.to_owned(), message }
}

/// An error with the given code and the message `prefix` followed by `name`.
fn hook_error_named(code: &str, prefix: &str, name: &str) -> (r: CryptoHookError)
    ensures
        r.code@ == code@,
        r.message@ == prefix@ + name@,
{
    let mut m = String::from_str(prefix);
    m.append(name);
    hook_error(code, m)
}

/// The digest of `data` under the hash named `alg`, or `None` for an
/// unknown name.
pub open spec fn digest_of(alg: Seq<char>, data: Seq<u8>) -> Option<Seq<u8>> {
    if alg == "md5"@ {
        Some(md5_of(data))
    } else if alg == "sha1"@ {
        Some(sha1_of(data))
    } else if alg == "sha224"@ {
        Some(sha224_of(data))
    } else if alg == "sha256"@ {
        Some(sha256_of(data))
    } else if alg == "sha384"@ {
        Some(sha384_of(data))
    } else if alg == "sha512"@ {
        Some(sha512_of(data))
    } else {
        None
    }
}

/// The digest of `data` under the hash named `alg` (`md5`, `sha1`,
/// `sha224`, `sha256`, `sha384`, `sha512`).
pub fn digest_bytes(alg: &str, data: &[u8]) -> (r: Option<Vec<u8>>)
    ensures
        match r {
            Some(v) => digest_of(alg@, data@) == Some(v@),
            None => digest_of(alg@, data@) is None,
        },
{
    if str_eq(alg, "md5") {
        Some(md5_digest(data))
    } else if str_eq(alg, "sha1") {
        Some(sha1_digest(data))
    } else if str_eq(alg, "sha224") {
        Some(sha224_digest(data))
    } else if str_eq(alg, "sha256") {
        Some(sha256_digest(data))
    } else if str_eq(alg, "sha384") {
        Some(sha384_digest(data))
    } else if str_eq(alg, "sha512") {
        Some(sha512_digest(data))
    } else {
        None
    }
}

/// `cryptoDigest`: the digest, or `ERR_CRYPTO_INVALID_DIGEST` for an
/// unknown hash name.
pub fn crypto_digest(alg: &str, data: &[u8]) -> (r: Result<Vec<u8>, CryptoHookError>)
    ensures
        match digest_of(alg@, data@) {
            Some(d) => r is Ok && r->Ok_0@ == d,
            None => r is Err && r->Err_0.code@ == "ERR_CRYPTO_INVALID_DIGEST"@
                && r->Err_0.message@ == "Invalid digest: "@ + alg@,
        },
{
    match digest_bytes(alg, data) {
        Some(v) => Ok(v),
        None => Err(hook_error_named("ERR_CRYPTO_INVALID_DIGEST", "Invalid digest: ", alg)),
    }
}

/// The HMAC of `data` under `key` with the hash named `alg`, or `None` for
/// an unknown name.
pub open spec fn hmac_of(alg: Seq<char>, key: Seq<u8>, data: Seq<u8>) -> Option<Seq<u8>> {
    if alg == "md5"@ {
        Some(hmac_md5_of(key, data))
    } else if alg == "sha1"@ {
        Some(hmac_sha1_of(key, data))
    } else if alg == "sha224"@ {
        Some(hmac_sha224_of(key, data))
    } else if alg == "sha256"@ {
        Some(hmac_sha256_of(key, data))
    } else if alg == "sha384"@ {
        Some(hmac_sha384_of(key, data))
    } else if alg == "sha512"@ {
        Some(hmac_sha512_of(key, data))
    } else {
        None
    }
}

/// The HMAC of `data` under `key` with the hash named `alg`.
pub fn hmac_bytes(alg: &str, key: &[u8], data: &[u8]) -> (r: Option<Vec<u8>>)
    ensures
        match r {
            Some(v) => hmac_of(alg@, key@, data@) == Some(v@),
            None => hmac_of(alg@, key@, data@) is None,
        },
{
    if str_eq(alg, "md5") {
        Some(hmac_md5(key, data))
    } else if str_eq(alg, "sha1") {
        Some(hmac_sha1(key, data))
    } else if str_eq(alg, "sha224") {
        Some(hmac_sha224(key, data))
    } else if str_eq(alg, "sha256") {
        Some(hmac_sha256(key, data))
    } else if str_eq(alg, "sha384") {
        Some(hmac_sha384(key, data))
    } else if str_eq(alg, "sha512") {
        Some(hmac_sha512(key, data))
    } else {
        None
    }
}

/// `cryptoHmac`: the MAC, or `ERR_CRYPTO_INVALID_DIGEST` for an unknown
/// hash name.
pub fn crypto_hmac(alg: &str, key: &[u8], data: &[u8]) -> (r: Result<Vec<u8>, CryptoHookError>)
    ensures
        match hmac_of(alg@, key@, data@) {
            Some(d) => r is Ok && r->Ok_0@ == d,
            None => r is Err && r->Err_0.code@ == "ERR_CRYPTO_INVALID_DIGEST"@
                && r->Err_0.message@ == "Invalid digest: "@ + alg@,
        },
{
    match hmac_bytes(alg, key, data) {
        Some(v) => Ok(v),
        None => Err(hook_error_named("ERR_CRYPTO_INVALID_DIGEST", "Invalid digest: ", alg)),
    }
}

/// The PBKDF2 key with the hash named `alg`, or `None` for an unknown name.
pub open spec fn pbkdf2_key_of(alg: Seq<char>, password: Seq<u8>, salt: Seq<u8>, rounds: u32, len: usize) -> Option<Seq<u8>> {
    if alg == "md5"@ {
        Some(pbkdf2_md5_of(password, salt, rounds, len))
    } else if alg == "sha1"@ {
        Some(pbkdf2_sha1_of(password, salt, rounds, len))
    } else if alg == "sha224"@ {
        Some(pbkdf2_sha224_of(password, salt, rounds, len))
    } else if alg == "sha256"@ {
        Some(pbkdf2_sha256_of(password, salt, rounds, len))
    } else if alg == "sha384"@ {
        Some(pbkdf2_sha384_of(password, salt, rounds, len))
    } else if alg == "sha512"@ {
        Some(pbkdf2_sha512_of(password, salt, rounds, len))
    } else {
        None
    }
}

/// Largest PBKDF2 key length, in bytes.
pub const PBKDF2_MAX_KEYLEN: u64 = 1073741824;

/// `crypto.pbkdf2Sync`: iterations from 1 to `u32::MAX` and a key length
/// up to 2^30 bytes (`ERR_OUT_OF_RANGE` otherwise), and a known hash name
/// (`ERR_CRYPTO_INVALID_DIGEST` otherwise).
pub fn crypto_pbkdf2(password: &[u8], salt: &[u8], iterations: u64, keylen: u64, alg: &str) -> (r: Result<Vec<u8>, CryptoHookError>)
    ensures
        if iterations < 1 || iterations > u32::MAX || keylen > PBKDF2_MAX_KEYLEN {
            (r is Err && r->Err_0.code@ == "ERR_OUT_OF_RANGE"@)
        } else {
            match pbkdf2_key_of(alg@, password@, salt@, iterations as u32, keylen as usize) {
                Some(k) => (r is Ok && r->Ok_0@ == k),
                None => (r is Err && r->Err_0.code@ == "ERR_CRYPTO_INVALID_DIGEST"@),
            }
        },
{
    if iterations < 1 || iterations > 4294967295 || keylen > PBKDF2_MAX_KEYLEN {
        return Err(hook_error("ERR_OUT_OF_RANGE", String::from_str("pbkdf2: iterations or keylen out of range")));
    }
    let rounds: u32 = iterations as u32;
    let len: usize = keylen as usize;
    if str_eq(alg, "md5") {
        Ok(pbkdf2_md5(password, salt, rounds, len))
    } else if str_eq(alg, "sha1") {
        Ok(pbkdf2_sha1(password, salt, rounds, len))
    } else if str_eq(alg, "sha224") {
        Ok(pbkdf2_sha224(password, salt, rounds, len))
    } else if str_eq(alg, "sha256") {
        Ok(pbkdf2_sha256(password, salt, rounds, len))
    } else if str_eq(alg, "sha384") {
        Ok(pbkdf2_sha384(password, salt, rounds, len))
    } else if str_eq(alg, "sha512") {
        Ok(pbkdf2_sha512(password, salt, rounds, len))
    } else {
        Err(hook_error_named("ERR_CRYPTO_INVALID_DIGEST", "Invalid digest: ", alg))
    }
}

/// The HKDF output with the hash named `alg`: `None` for an unknown name,
/// `Some(None)` where the length is too long for the hash.
pub open spec fn hkdf_key_of(alg: Seq<char>, salt: Option<Seq<u8>>, ikm: Seq<u8>, info: Seq<u8>, len: usize) -> Option<Option<Seq<u8>>> {
    if alg == "md5"@ {
        Some(hkdf_md5_of(salt, ikm, info, len))
    } else if alg == "sha1"@ {
        Some(hkdf_sha1_of(salt, ikm, info, len))
    } else if alg == "sha224"@ {
        Some(hkdf_sha224_of(salt, ikm, info, len))
    } else if alg == "sha256"@ {
        Some(hkdf_sha256_of(salt, ikm, info, len))
    } else if alg == "sha384"@ {
        Some(hkdf_sha384_of(salt, ikm, info, len))
    } else if alg == "sha512"@ {
        Some(hkdf_sha512_of(salt, ikm, info, len))
    } else {
        None
    }
}

/// Each hash name selects its own hash function, for `createHash`,
/// `createHmac`, `pbkdf2Sync` and `hkdfSync` alike: `md5` is MD5, `sha1`
/// SHA-1, `sha224` SHA-224, `sha256` SHA-256, `sha384` SHA-384 and `sha512`
/// SHA-512, each as computed by its own crate.
pub proof fn law_hash_names_select_their_functions(
    data: Seq<u8>,
    key: Seq<u8>,
    salt: Seq<u8>,
    rounds: u32,
    len: usize,
    hsalt: Option<Seq<u8>>,
    info: Seq<u8>,
)
    ensures
        digest_of("md5"@, data) == Some(md5_of(data)),
        digest_of("sha1"@, data) == Some(sha1_of(data)),
        digest_of("sha224"@, data) == Some(sha224_of(data)),
        digest_of("sha256"@, data) == Some(sha256_of(data)),
        digest_of("sha384"@, data) == Some(sha384_of(data)),
        digest_of("sha512"@, data) == Some(sha512_of(data)),
        hmac_of("md5"@, key, data) == Some(hmac_md5_of(key, data)),
        hmac_of("sha1"@, key, data) == Some(hmac_sha1_of(key, data)),
        hmac_of("sha224"@, key, data) == Some(hmac_sha224_of(key, data)),
        hmac_of("sha256"@, key, data) == Some(hmac_sha256_of(key, data)),
        hmac_of("sha384"@, key, data) == Some(hmac_sha384_of(key, data)),
        hmac_of("sha512"@, key, data) == Some(hmac_sha512_of(key, data)),
        pbkdf2_key_of("md5"@, key, salt, rounds, len) == Some(pbkdf2_md5_of(key, salt, rounds, len)),
        pbkdf2_key_of("sha1"@, key, salt, rounds, len) == Some(pbkdf2_sha1_of(key, salt, rounds, len)),
        pbkdf2_key_of("sha224"@, key, salt, rounds, len) == Some(pbkdf2_sha224_of(key, salt, rounds, len)),
        pbkdf2_key_of("sha256"@, key, salt, rounds, len) == Some(pbkdf2_sha256_of(key, salt, rounds, len)),
        pbkdf2_key_of("sha384"@, key, salt, rounds, len) == Some(pbkdf2_sha384_of(key, salt, rounds, len)),
        pbkdf2_key_of("sha512"@, key, salt, rounds, len) == Some(pbkdf2_sha512_of(key, salt, rounds, len)),
        hkdf_key_of("md5"@, hsalt, key, info, len) == Some(hkdf_md5_of(hsalt, key, info, len)),
        hkdf_key_of("sha1"@, hsalt, key, info, len) == Some(hkdf_sha1_of(hsalt, key, info, len)),
        hkdf_key_of("sha224"@, hsalt, key, info, len) == Some(hkdf_sha224_of(hsalt, key, info, len)),
        hkdf_key_of("sha256"@, hsalt, key, info, len) == Some(hkdf_sha256_of(hsalt, key, info, len)),
        hkdf_key_of("sha384"@, hsalt, key, info, len) == Some(hkdf_sha384_of(hsalt, key, info, len)),
        hkdf_key_of("sha512"@, hsalt, key, info, len) == Some(hkdf_sha512_of(hsalt, key, info, len)),
{
    reveal_strlit("md5");
    reveal_strlit("sha1");
    reveal_strlit("sha224");
    reveal_strlit("sha256");
    reveal_strlit("sha384");
    reveal_strlit("sha512");
    assert("md5"@[0] != "sha1"@[0]);
    assert("sha1"@.len() != "sha224"@.len());
    assert("sha1"@.len() != "sha256"@.len());
    assert("sha1"@.len() != "sha384"@.len());
    assert("sha1"@.len() != "sha512"@.len());
    assert("md5"@[0] != "sha224"@[0]);
    assert("md5"@[0] != "sha256"@[0]);
    assert("md5"@[0] != "sha384"@[0]);
    assert("md5"@[0] != "sha512"@[0]);
    assert("sha224"@[3] != "sha256"@[3] || "sha224"@[4] != "sha256"@[4] || "sha224"@[5] != "sha256"@[5]);
    assert("sha224"@[3] != "sha384"@[3]);
    assert("sha224"@[3] != "sha512"@[3]);
    assert("sha256"@[3] != "sha384"@[3]);
    assert("sha256"@[3] != "sha512"@[3]);
    assert("sha384"@[3] != "sha512"@[3]);
}

/// Largest HKDF key length accepted before the hash is known, in bytes.
pub const HKDF_MAX_KEYLEN: u64 = 16320;

/// The salt handed to HKDF: none for an empty salt.
pub open spec fn hkdf_salt(salt: Seq<u8>) -> Option<Seq<u8>> {
    if salt.len() == 0 {
        None
    } else {
        Some(salt)
    }
}

/// `crypto.hkdfSync`: a key length up to 255 * 64 bytes and up to 255
/// hash lengths (`ERR_OUT_OF_RANGE` otherwise) and a known hash name
/// (`ERR_CRYPTO_INVALID_DIGEST` otherwise); an empty salt means none.
pub fn crypto_hkdf(alg: &str, ikm: &[u8], salt: &[u8], info: &[u8], keylen: u64) -> (r: Result<Vec<u8>, CryptoHookError>)
    ensures
        if keylen > HKDF_MAX_KEYLEN {
            (r is Err && r->Err_0.code@ == "ERR_OUT_OF_RANGE"@)
        } else {
            match hkdf_key_of(alg@, hkdf_salt(salt@), ikm@, info@, keylen as usize) {
                Some(Some(k)) => (r is Ok && r->Ok_0@ == k),
                Some(None) => (r is Err && r->Err_0.code@ == "ERR_OUT_OF_RANGE"@),
                None => (r is Err && r->Err_0.code@ == "ERR_CRYPTO_INVALID_DIGEST"@),
            }
        },
{
    if keylen > HKDF_MAX_KEYLEN {
        return Err(hook_error("ERR_OUT_OF_RANGE", String::from_str("hkdf: keylen out of range")));
    }
    let len: usize = keylen as usize;
    let salt_opt: Option<&[u8]> = if salt.len() == 0 {
        None
    } else {
        Some(salt)
    };
    assert(opt_bytes(salt_opt) == hkdf_salt(salt@));
    let out = if str_eq(alg, "md5") {
        hkdf_md5(salt_opt, ikm, info, len)
    } else if str_eq(alg, "sha1") {
        hkdf_sha1(salt_opt, ikm, info, len)
    } else if str_eq(alg, "sha224") {
        hkdf_sha224(salt_opt, ikm, info, len)
    } else if str_eq(alg, "sha256") {
        hkdf_sha256(salt_opt, ikm, info, len)
    } else if str_eq(alg, "sha384") {
        hkdf_sha384(salt_opt, ikm, info, len)
    } else if str_eq(alg, "sha512") {
        hkdf_sha512(salt_opt, ikm, info, len)
    } else {
        return Err(hook_error_named("ERR_CRYPTO_INVALID_DIGEST", "Invalid digest: ", alg));
    };
    match out {
        Some(v) => Ok(v),
        None => Err(hook_error("ERR_OUT_OF_RANGE", String::from_str("hkdf: derived key length too long for digest"))),
    }
}

/// The base-2 logarithm of `n`, rounded down (0 for `n <= 1`).
pub open spec fn floor_log2(n: nat) -> nat
    decreases n,
{
    if n <= 1 {
        0
    } else {
        1 + floor_log2(n / 2)
    }
}

/// Whether `n` is a power of two at least 2.
pub open spec fn scrypt_cost_ok(n: u64) -> bool {
    n >= 2 && n & ((n - 1) as u64) == 0
}

/// The base-2 logarithm of `n`, rounded down.
fn log2_floor(n: u64) -> (k: u8)
    requires
        n >= 1,
    ensures
        k == floor_log2(n as nat),
{
    let mut m = n;
    let mut k: u8 = 0;
    assert(m <= u64::MAX >> (k as u64)) by (bit_vector)
        requires
            k == 0,
    ;
    while m > 1
        invariant
            m >= 1,
            k < 64,
            k + floor_log2(m as nat) == floor_log2(n as nat),
            m <= u64::MAX >> (k as u64),
        decreases m,
    {
        assert(k + 1 < 64 && m / 2 <= u64::MAX >> ((k + 1) as u64)) by (bit_vector)
            requires
                m > 1,
                k < 64,
                m <= u64::MAX >> (k as u64),
        ;
        assert(floor_log2(m as nat) == 1 + floor_log2((m / 2) as nat));
        m = m / 2;
        k = k + 1;
    }
    k
}

/// Largest scrypt key length, in bytes.
pub const SCRYPT_MAX_KEYLEN: u64 = 67108864;

/// `crypto.scryptSync`: the cost `n` must be a power of two at least 2 and
/// the key length at most 2^26 bytes (`ERR_OUT_OF_RANGE`); parameters the
/// scrypt crate refuses give `ERR_CRYPTO_INVALID_SCRYPT_PARAMS`. The
/// product `r * p` must fit in a `u32`, as the crate computes it there.
pub fn crypto_scrypt(password: &[u8], salt: &[u8], n: u64, r: u32, p: u32, keylen: u64) -> (out: Result<Vec<u8>, CryptoHookError>)
    requires
        r * p <= u32::MAX,
    ensures
        if !scrypt_cost_ok(n) || keylen > SCRYPT_MAX_KEYLEN {
            (out is Err && out->Err_0.code@ == "ERR_OUT_OF_RANGE"@)
        } else {
            match scrypt_of(password@, salt@, floor_log2(n as nat) as u8, r, p, keylen as usize) {
                Some(key) => (out is Ok && out->Ok_0@ == key),
                None => (out is Err && out->Err_0.code@ == "ERR_CRYPTO_INVALID_SCRYPT_PARAMS"@),
            }
        },
{
    if n < 2 || n & (n - 1) != 0 || keylen > SCRYPT_MAX_KEYLEN {
        return Err(hook_error("ERR_OUT_OF_RANGE", String::from_str("scrypt: invalid N (must be power of two > 1) or keylen")));
    }
    let log_n = log2_floor(n);
    match scrypt_derive(password, salt, log_n, r, p, keylen as usize) {
        Some(v) => Ok(v),
        None => Err(hook_error("ERR_CRYPTO_INVALID_SCRYPT_PARAMS", String::from_str("scrypt: invalid parameters"))),
    }
}

/// Most random bytes one call hands out: 128 MiB.
pub const RANDOM_MAX_BYTES: u64 = 134217728;

/// `crypto.randomBytes`: `n` random bytes, for `n` up to 128 MiB
/// (`ERR_OUT_OF_RANGE` otherwise); a failing entropy source gives
/// `ERR_CRYPTO_OPERATION_FAILED`.
pub fn crypto_random_bytes(n: u64) -> (r: Result<Vec<u8>, CryptoHookError>)
    ensures
        n > RANDOM_MAX_BYTES ==> (r is Err && r->Err_0.code@ == "ERR_OUT_OF_RANGE"@),
        n <= RANDOM_MAX_BYTES ==> match r {
            Ok(v) => v@.len() == n,
            Err(e) => e.code@ == "ERR_CRYPTO_OPERATION_FAILED"@,
        },
{
    if n > RANDOM_MAX_BYTES {
        return Err(hook_error("ERR_OUT_OF_RANGE", String::from_str("randomBytes: size out of range (0..128MiB)")));
    }
    match random_bytes(n as usize) {
        Some(v) => Ok(v),
        None => Err(hook_error("ERR_CRYPTO_OPERATION_FAILED", String::from_str("randomBytes: entropy source failure"))),
    }
}

/// `crypto.timingSafeEqual`: whether two buffers of the same length are
/// equal, reading every byte; buffers of different lengths give
/// `ERR_CRYPTO_TIMING_SAFE_EQUAL_LENGTH`.
pub fn crypto_timing_safe_equal(a: &[u8], b: &[u8]) -> (r: Result<bool, CryptoHookError>)
    ensures
        a@.len() != b@.len() ==> (r is Err && r->Err_0.code@ == "ERR_CRYPTO_TIMING_SAFE_EQUAL_LENGTH"@),
        a@.len() == b@.len() ==> r == Ok::<bool, CryptoHookError>(a@ == b@),
{
    if a.len() != b.len() {
        return Err(hook_error(
            "ERR_CRYPTO_TIMING_SAFE_EQUAL_LENGTH",
            String::from_str("Input buffers must have the same byte length"),
        ));
    }
    let mut diff: u8 = 0;
    let mut i: usize = 0;
    assert(a@.subrange(0, 0) =~= b@.subrange(0, 0));
    while i < a.len()
        invariant
            i <= a@.len(),
            a@.len() == b@.len(),
            (diff == 0) == (a@.subrange(0, i as int) == b@.subrange(0, i as int)),
        decreases a@.len() - i,
    {
        let x = a[i];
        let y = b[i];
        let d = diff;
        assert(((d | (x ^ y)) == 0) == (d == 0 && x == y)) by (bit_vector);
        proof {
            if a@.subrange(0, i + 1) == b@.subrange(0, i + 1) {
                assert(a@.subrange(0, i + 1)[i as int] == b@.subrange(0, i + 1)[i as int]);
                assert(a@.subrange(0, i as int) =~= a@.subrange(0, i + 1).subrange(0, i as int));
                assert(b@.subrange(0, i as int) =~= b@.subrange(0, i + 1).subrange(0, i as int));
            }
            if d == 0 && x == y {
                assert(a@.subrange(0, i + 1) =~= b@.subrange(0, i + 1));
            }
        }
        diff = diff | (x ^ y);
        i = i + 1;
    }
    assert(a@.subrange(0, a@.len() as int) =~= a@);
    assert(b@.subrange(0, b@.len() as int) =~= b@);
    Ok(diff == 0)
}

/// `crypto.getRandomValues` on an array of `len` bytes: that many random
/// bytes (none drawn for an empty array), or `None` where the entropy
/// source fails.
pub fn random_values(len: usize) -> (r: Option<Vec<u8>>)
    ensures
        r is Some ==> r->0@.len() == len,
        len == 0 ==> r is Some,
{
    if len == 0 {
        Some(Vec::new())
    } else {
        random_bytes(len)
    }
}

/// The prehash signature on the curve named `curve` (`p256` or `p384`).
pub open spec fn ec_signature(curve: Seq<char>, pem: Seq<char>, digest: Seq<u8>) -> Result<Seq<u8>, Seq<char>> {
    if curve == "p256"@ {
        p256_prehash_signature(pem, digest)
    } else {
        p384_prehash_signature(pem, digest)
    }
}

/// Whether a prehash signature checks on the curve named `curve`.
pub open spec fn ec_verifies(curve: Seq<char>, pem: Seq<char>, digest: Seq<u8>, sig: Seq<u8>) -> bool {
    if curve == "p256"@ {
        p256_prehash_verifies(pem, digest, sig)
    } else {
        p384_prehash_verifies(pem, digest, sig)
    }
}

/// Whether `curve` names a curve of the EC hooks.
pub open spec fn ec_curve_known(curve: Seq<char>) -> bool {
    curve == "p256"@ || curve == "p384"@
}

/// `cryptoEcGenerate`: a fresh key pair on `p256` or `p384` as PEM (any
/// other curve is `ERR_INVALID_ARG_VALUE`; an encoding failure is
/// `ERR_CRYPTO_OPERATION_FAILED`). What the private key signs, the public
/// key verifies.
pub fn crypto_ec_generate(curve: &str) -> (r: Result<PemPair, CryptoHookError>)
    ensures
        !ec_curve_known(curve@) ==> r is Err && r->Err_0.code@ == "ERR_INVALID_ARG_VALUE"@
            && r->Err_0.message@ == "Unsupported curve: "@ + curve@,
        ec_curve_known(curve@) && r is Err ==> r->Err_0.code@ == "ERR_CRYPTO_OPERATION_FAILED"@,
        ec_curve_known(curve@) && r is Ok ==> forall|d: Seq<u8>|
            #[trigger] ec_signature(curve@, r->Ok_0.private_pem@, d) is Ok ==> ec_verifies(
                curve@,
                r->Ok_0.public_pem@,
                d,
                ec_signature(curve@, r->Ok_0.private_pem@, d)->Ok_0,
            ),
{
    let pair = if str_eq(curve, "p256") {
        p256_generate_pem()
    } else if str_eq(curve, "p384") {
        p384_generate_pem()
    } else {
        return Err(hook_error_named("ERR_INVALID_ARG_VALUE", "Unsupported curve: ", curve));
    };
    match pair {
        Some(p) => Ok(p),
        None => Err(hook_error("ERR_CRYPTO_OPERATION_FAILED", String::from_str("EC key encoding failed"))),
    }
}

/// `cryptoEcSign`: hashes `data` with `hash` (an unknown hash is
/// `ERR_CRYPTO_INVALID_DIGEST`) and signs the digest with the PKCS#8 key
/// `pem` on `curve`, as a DER signature; an unknown curve or a signing
/// failure is `ERR_CRYPTO_OPERATION_FAILED` with `EC sign failed: <reason>`.
pub fn crypto_ec_sign(curve: &str, hash: &str, pem: &str, data: &[u8]) -> (r: Result<Vec<u8>, CryptoHookError>)
    ensures
        match digest_of(hash@, data@) {
            None => r is Err && r->Err_0.code@ == "ERR_CRYPTO_INVALID_DIGEST"@
                && r->Err_0.message@ == "Invalid digest: "@ + hash@,
            Some(d) => if !ec_curve_known(curve@) {
                r is Err && r->Err_0.code@ == "ERR_CRYPTO_OPERATION_FAILED"@
                    && r->Err_0.message@ == "EC sign failed: Unsupported curve: "@ + curve@
            } else {
                match ec_signature(curve@, pem@, d) {
                    Ok(sig) => r is Ok && r->Ok_0@ == sig,
                    Err(e) => r is Err && r->Err_0.code@ == "ERR_CRYPTO_OPERATION_FAILED"@
                        && r->Err_0.message@ == "EC sign failed: "@ + e,
                }
            },
        },
{
    let digest = match digest_bytes(hash, data) {
        Some(d) => d,
        None => {
            return Err(hook_error_named("ERR_CRYPTO_INVALID_DIGEST", "Invalid digest: ", hash));
        },
    };
    let signed = if str_eq(curve, "p256") {
        p256_sign_prehash_der(pem, digest.as_slice())
    } else if str_eq(curve, "p384") {
        p384_sign_prehash_der(pem, digest.as_slice())
    } else {
        return Err(hook_error_named("ERR_CRYPTO_OPERATION_FAILED", "EC sign failed: Unsupported curve: ", curve));
    };
    match signed {
        Ok(sig) => Ok(sig),
        Err(e) => Err(hook_error_named("ERR_CRYPTO_OPERATION_FAILED", "EC sign failed: ", e.as_str())),
    }
}

/// `cryptoEcVerify`: hashes `data` with `hash` (an unknown hash is
/// `ERR_CRYPTO_INVALID_DIGEST`; an unknown curve `ERR_INVALID_ARG_VALUE`)
/// and answers whether the DER signature `sig` checks under the SPKI key
/// `pem`.
pub fn crypto_ec_verify(curve: &str, hash: &str, pem: &str, data: &[u8], sig: &[u8]) -> (r: Result<bool, CryptoHookError>)
    ensures
        match digest_of(hash@, data@) {
            None => r is Err && r->Err_0.code@ == "ERR_CRYPTO_INVALID_DIGEST"@
                && r->Err_0.message@ == "Invalid digest: "@ + hash@,
            Some(d) => if !ec_curve_known(curve@) {
                r is Err && r->Err_0.code@ == "ERR_INVALID_ARG_VALUE"@
                    && r->Err_0.message@ == "Unsupported curve: "@ + curve@
            } else {
                r is Ok && r->Ok_0 == ec_verifies(curve@, pem@, d, sig@)
            },
        },
{
    let digest = match digest_bytes(hash, data) {
        Some(d) => d,
        None => {
            return Err(hook_error_named("ERR_CRYPTO_INVALID_DIGEST", "Invalid digest: ", hash));
        },
    };
    if str_eq(curve, "p256") {
        Ok(p256_verify_prehash_der(pem, digest.as_slice(), sig))
    } else if str_eq(curve, "p384") {
        Ok(p384_verify_prehash_der(pem, digest.as_slice(), sig))
    } else {
        Err(hook_error_named("ERR_INVALID_ARG_VALUE", "Unsupported curve: ", curve))
    }
}

/// `cryptoEd25519Generate`: a fresh key pair (PKCS#8 private key, raw
/// public key), or `ERR_CRYPTO_OPERATION_FAILED`. What the private key
/// signs checks under the public key.
pub fn crypto_ed25519_generate() -> (r: Result<Ed25519Pair, CryptoHookError>)
    ensures
        r is Err ==> r->Err_0.code@ == "ERR_CRYPTO_OPERATION_FAILED"@
            && r->Err_0.message@ == "Ed25519 keygen failed"@,
        r is Ok ==> ed25519_key_ok(r->Ok_0.private_pkcs8@),
        r is Ok ==> forall|m: Seq<u8>| #[trigger] ed25519_verifies(
            r->Ok_0.public_raw@,
            m,
            ed25519_signature_of(r->Ok_0.private_pkcs8@, m),
        ),
{
    match ed25519_generate() {
        Some(p) => Ok(p),
        None => Err(hook_error("ERR_CRYPTO_OPERATION_FAILED", String::from_str("Ed25519 keygen failed"))),
    }
}

/// `cryptoEd25519Sign`: the signature of `data` under the PKCS#8 key, or
/// `ERR_CRYPTO_INVALID_KEY_OBJECT_TYPE` for a key that is refused.
pub fn crypto_ed25519_sign(pkcs8: &[u8], data: &[u8]) -> (r: Result<Vec<u8>, CryptoHookError>)
    ensures
        ed25519_key_ok(pkcs8@) ==> r is Ok && r->Ok_0@ == ed25519_signature_of(pkcs8@, data@),
        !ed25519_key_ok(pkcs8@) ==> r is Err && r->Err_0.code@ == "ERR_CRYPTO_INVALID_KEY_OBJECT_TYPE"@
            && r->Err_0.message@ == "invalid Ed25519 PKCS#8 key"@,
{
    match ed25519_sign(pkcs8, data) {
        Some(sig) => Ok(sig),
        None => Err(hook_error("ERR_CRYPTO_INVALID_KEY_OBJECT_TYPE", String::from_str("invalid Ed25519 PKCS#8 key"))),
    }
}

/// `cryptoEd25519Verify`: whether `sig` is a valid signature of `data`
/// under the raw public key.
pub fn crypto_ed25519_verify(public_raw: &[u8], data: &[u8], sig: &[u8]) -> (r: bool)
    ensures
        r == ed25519_verifies(public_raw@, data@, sig@),
{
    ed25519_verify(public_raw, data, sig)
}

} // verus!
