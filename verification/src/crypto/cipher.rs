//! The AES ciphers of `node:crypto` (`createCipheriv` / `createDecipheriv`):
//! GCM, CBC and CTR with 128-, 192- and 256-bit keys.

use vstd::prelude::*;
use vstd::string::StringExecFns;
use crate::text::{str_eq, decimal, decimal_string};
use crate::crypto::node::CryptoHookError;
use crate::crypto::primitives::{
    gcm128_seal_of, gcm192_seal_of, gcm256_seal_of, gcm128_open_of, gcm192_open_of, gcm256_open_of,
    cbc128_encrypt_of, cbc192_encrypt_of, cbc256_encrypt_of,
    cbc128_decrypt_of, cbc192_decrypt_of, cbc256_decrypt_of,
    ctr128_of, ctr192_of, ctr256_of,
    gcm128_seal, gcm192_seal, gcm256_seal, gcm128_open, gcm192_open, gcm256_open,
    cbc128_encrypt, cbc192_encrypt, cbc256_encrypt,
    cbc128_decrypt, cbc192_decrypt, cbc256_decrypt,
    ctr128_apply, ctr192_apply, ctr256_apply,
};

verus! {

/// The block-cipher mode of an AES algorithm.
#[derive(Debug, Clone, Copy, PartialEq, Eq, Structural)]
pub enum AesMode {
    Gcm,
    Cbc,
    Ctr,
}

/// Whether `algo` names an AES algorithm in mode `mode`.
pub open spec fn aes_mode_is(algo: Seq<char>, mode: AesMode) -> bool {
    aes_algo_of(algo) matches Some(a) && a.1 == mode
}

/// The key length in bytes and the mode of the algorithm named `algo`.
pub open spec fn aes_algo_of(algo: Seq<char>) -> Option<(usize, AesMode)> {
    if algo == "aes-128-gcm"@ {
        Some((16usize, AesMode::Gcm))
    } else if algo == "aes-192-gcm"@ {
        Some((24usize, AesMode::Gcm))
    } else if algo == "aes-256-gcm"@ {
        Some((32usize, AesMode::Gcm))
    } else if algo == "aes-128-cbc"@ {
        Some((16usize, AesMode::Cbc))
    } else if algo == "aes-192-cbc"@ {
        Some((24usize, AesMode::Cbc))
    } else if algo == "aes-256-cbc"@ {
        Some((32usize, AesMode::Cbc))
    } else if algo == "aes-128-ctr"@ {
        Some((16usize, AesMode::Ctr))
    } else if algo == "aes-192-ctr"@ {
        Some((24usize, AesMode::Ctr))
    } else if algo == "aes-256-ctr"@ {
        Some((32usize, AesMode::Ctr))
    } else {
        None
    }
}

/// The key length in bytes and the mode of a supported AES algorithm name.
pub fn parse_aes_algo(algo: &str) -> (r: Option<(usize, AesMode)>)
    ensures
        r == aes_algo_of(algo@),
{
    if str_eq(algo, "aes-128-gcm") {
        Some((16, AesMode::Gcm))
    } else if str_eq(algo, "aes-192-gcm") {
        Some((24, AesMode::Gcm))
    } else if str_eq(algo, "aes-256-gcm") {
        Some((32, AesMode::Gcm))
    } else if str_eq(algo, "aes-128-cbc") {
        Some((16, AesMode::Cbc))
    } else if str_eq(algo, "aes-192-cbc") {
        Some((24, AesMode::Cbc))
    } else if str_eq(algo, "aes-256-cbc") {
        Some((32, AesMode::Cbc))
    } else if str_eq(algo, "aes-128-ctr") {
        Some((16, AesMode::Ctr))
    } else if str_eq(algo, "aes-192-ctr") {
        Some((24, AesMode::Ctr))
    } else if str_eq(algo, "aes-256-ctr") {
        Some((32, AesMode::Ctr))
    } else {
        None
    }
}

/// Whether `n` is an AES key length in bytes.
pub open spec fn aes_key_len(n: nat) -> bool {
    n == 16 || n == 24 || n == 32
}

/// GCM sealing under a key of the given length.
pub open spec fn gcm_seal_of(key: Seq<u8>, iv: Seq<u8>, data: Seq<u8>, aad: Seq<u8>) -> Option<Seq<u8>> {
    if key.len() == 16 {
        gcm128_seal_of(key, iv, data, aad)
    } else if key.len() == 24 {
        gcm192_seal_of(key, iv, data, aad)
    } else {
        gcm256_seal_of(key, iv, data, aad)
    }
}

/// GCM opening under a key of the given length.
pub open spec fn gcm_open_of(key: Seq<u8>, iv: Seq<u8>, data: Seq<u8>, aad: Seq<u8>) -> Option<Seq<u8>> {
    if key.len() == 16 {
        gcm128_open_of(key, iv, data, aad)
    } else if key.len() == 24 {
        gcm192_open_of(key, iv, data, aad)
    } else {
        gcm256_open_of(key, iv, data, aad)
    }
}

/// CBC encryption under a key of the given length.
pub open spec fn cbc_encrypt_of(key: Seq<u8>, iv: Seq<u8>, data: Seq<u8>) -> Seq<u8> {
    if key.len() == 16 {
        cbc128_encrypt_of(key, iv, data)
    } else if key.len() == 24 {
        cbc192_encrypt_of(key, iv, data)
    } else {
        cbc256_encrypt_of(key, iv, data)
    }
}

/// CBC decryption under a key of the given length.
pub open spec fn cbc_decrypt_of(key: Seq<u8>, iv: Seq<u8>, data: Seq<u8>) -> Option<Seq<u8>> {
    if key.len() == 16 {
        cbc128_decrypt_of(key, iv, data)
    } else if key.len() == 24 {
        cbc192_decrypt_of(key, iv, data)
    } else {
        cbc256_decrypt_of(key, iv, data)
    }
}

/// The CTR keystream under a key of the given length applied to `data`.
pub open spec fn ctr_of(key: Seq<u8>, iv: Seq<u8>, data: Seq<u8>) -> Seq<u8> {
    if key.len() == 16 {
        ctr128_of(key, iv, data)
    } else if key.len() == 24 {
        ctr192_of(key, iv, data)
    } else {
        ctr256_of(key, iv, data)
    }
}

fn gcm_seal(key: &[u8], iv: &[u8], data: &[u8], aad: &[u8]) -> (r: Option<Vec<u8>>)
    requires
        aes_key_len(key@.len()),
        iv@.len() == 12,
    ensures
        r matches Some(v) ==> gcm_seal_of(key@, iv@, data@, aad@) == Some(v@) && v@.len() == data@.len() + 16,
        r is None ==> gcm_seal_of(key@, iv@, data@, aad@) is None,
{
    if key.len() == 16 {
        gcm128_seal(key, iv, data, aad)
    } else if key.len() == 24 {
        gcm192_seal(key, iv, data, aad)
    } else {
        gcm256_seal(key, iv, data, aad)
    }
}

fn gcm_open(key: &[u8], iv: &[u8], data: &[u8], aad: &[u8]) -> (r: Option<Vec<u8>>)
    requires
        aes_key_len(key@.len()),
        iv@.len() == 12,
    ensures
        r matches Some(v) ==> gcm_open_of(key@, iv@, data@, aad@) == Some(v@),
        r is None ==> gcm_open_of(key@, iv@, data@, aad@) is None,
        forall|p: Seq<u8>| #[trigger] gcm_seal_of(key@, iv@, p, aad@) == Some(data@) ==> r is Some && r->0@ == p,
{
    let r = if key.len() == 16 {
        gcm128_open(key, iv, data, aad)
    } else if key.len() == 24 {
        gcm192_open(key, iv, data, aad)
    } else {
        gcm256_open(key, iv, data, aad)
    };
    assert forall|p: Seq<u8>| #[trigger] gcm_seal_of(key@, iv@, p, aad@) == Some(data@) implies r is Some && r->0@ == p by {
        if key@.len() == 16 {
            assert(gcm128_seal_of(key@, iv@, p, aad@) == Some(data@));
        } else if key@.len() == 24 {
            assert(gcm192_seal_of(key@, iv@, p, aad@) == Some(data@));
        } else {
            assert(gcm256_seal_of(key@, iv@, p, aad@) == Some(data@));
        }
    }
    r
}

fn cbc_encrypt(key: &[u8], iv: &[u8], data: &[u8]) -> (r: Vec<u8>)
    requires
        aes_key_len(key@.len()),
        iv@.len() == 16,
    ensures
        r@ == cbc_encrypt_of(key@, iv@, data@),
{
    if key.len() == 16 {
        cbc128_encrypt(key, iv, data)
    } else if key.len() == 24 {
        cbc192_encrypt(key, iv, data)
    } else {
        cbc256_encrypt(key, iv, data)
    }
}

fn cbc_decrypt(key: &[u8], iv: &[u8], data: &[u8]) -> (r: Option<Vec<u8>>)
    requires
        aes_key_len(key@.len()),
        iv@.len() == 16,
    ensures
        r matches Some(v) ==> cbc_decrypt_of(key@, iv@, data@) == Some(v@),
        r is None ==> cbc_decrypt_of(key@, iv@, data@) is None,
        forall|p: Seq<u8>| #[trigger] cbc_encrypt_of(key@, iv@, p) == data@ ==> r is Some && r->0@ == p,
{
    let r = if key.len() == 16 {
        cbc128_decrypt(key, iv, data)
    } else if key.len() == 24 {
        cbc192_decrypt(key, iv, data)
    } else {
        cbc256_decrypt(key, iv, data)
    };
    assert forall|p: Seq<u8>| #[trigger] cbc_encrypt_of(key@, iv@, p) == data@ implies r is Some && r->0@ == p by {
        if key@.len() == 16 {
            assert(cbc128_encrypt_of(key@, iv@, p) == data@);
        } else if key@.len() == 24 {
            assert(cbc192_encrypt_of(key@, iv@, p) == data@);
        } else {
            assert(cbc256_encrypt_of(key@, iv@, p) == data@);
        }
    }
    r
}

fn ctr_apply(key: &[u8], iv: &[u8], data: &[u8]) -> (r: Vec<u8>)
    requires
        aes_key_len(key@.len()),
        iv@.len() == 16,
    ensures
        r@ == ctr_of(key@, iv@, data@),
        r@.len() == data@.len(),
        forall|p: Seq<u8>| #[trigger] ctr_of(key@, iv@, p) == data@ ==> r@ == p,
{
    let r = if key.len() == 16 {
        ctr128_apply(key, iv, data)
    } else if key.len() == 24 {
        ctr192_apply(key, iv, data)
    } else {
        ctr256_apply(key, iv, data)
    };
    assert forall|p: Seq<u8>| #[trigger] ctr_of(key@, iv@, p) == data@ implies r@ == p by {
        if key@.len() == 16 {
            assert(ctr128_of(key@, iv@, p) == data@);
        } else if key@.len() == 24 {
            assert(ctr192_of(key@, iv@, p) == data@);
        } else {
            assert(ctr256_of(key@, iv@, p) == data@);
        }
    }
    r
}

/// What a cipher call produces: the output bytes and, for GCM encryption,
/// the 16-byte authentication tag.
#[derive(Debug)]
pub struct CipherOutput {
    pub data: Vec<u8>,
    pub tag: Option<Vec<u8>>,
}

/// The view of an optional byte slice, `None` read as no bytes.
pub open spec fn bytes_or_empty(o: Option<&[u8]>) -> Seq<u8> {
    match o {
        Some(s) => s@,
        None => Seq::empty(),
    }
}

/// The view of an optional byte slice.
pub open spec fn opt_slice_view(o: Option<&[u8]>) -> Option<Seq<u8>> {
    match o {
        Some(s) => Some(s@),
        None => None,
    }
}

/// The view of an optional byte vector.
pub open spec fn opt_vec_view(o: Option<Vec<u8>>) -> Option<Seq<u8>> {
    match o {
        Some(v) => Some(v@),
        None => None,
    }
}

/// The message of an invalid key length.
pub open spec fn keylen_message(n: nat, algo: Seq<char>) -> Seq<char> {
    "Invalid key length "@ + decimal(n) + " for "@ + algo
}

/// The outcome of an AES call: the output and tag, or the error code and
/// message.
pub open spec fn aes_result(
    encrypt: bool,
    algo: Seq<char>,
    key: Seq<u8>,
    iv: Seq<u8>,
    data: Seq<u8>,
    aad: Seq<u8>,
    tag: Option<Seq<u8>>,
) -> Result<(Seq<u8>, Option<Seq<u8>>), (Seq<char>, Seq<char>)> {
    match aes_algo_of(algo) {
        None => Err(("ERR_CRYPTO_UNKNOWN_CIPHER"@, "Unknown cipher: "@ + algo)),
        Some((klen, mode)) => if key.len() != klen {
            Err(("ERR_CRYPTO_INVALID_KEYLEN"@, keylen_message(key.len(), algo)))
        } else {
            match mode {
                AesMode::Gcm => if iv.len() != 12 {
                    Err(("ERR_CRYPTO_INVALID_IV"@, "GCM requires a 12-byte IV in the NANO runtime"@))
                } else if encrypt {
                    match gcm_seal_of(key, iv, data, aad) {
                        Some(ct) => if ct.len() >= 16 {
                            Ok((ct.subrange(0, ct.len() - 16), Some(ct.subrange(ct.len() - 16, ct.len() as int))))
                        } else {
                            Err(("ERR_CRYPTO_OPERATION_FAILED"@, "GCM encrypt failed"@))
                        },
                        None => Err(("ERR_CRYPTO_OPERATION_FAILED"@, "GCM encrypt failed"@)),
                    }
                } else {
                    match tag {
                        None => Err(("ERR_CRYPTO_INVALID_STATE"@, "GCM decrypt requires an auth tag"@)),
                        Some(t) => match gcm_open_of(key, iv, data + t, aad) {
                            Some(pt) => Ok((pt, None)),
                            None => Err((
                                "ERR_CRYPTO_INVALID_AUTH_TAG"@,
                                "Unsupported state or unable to authenticate data"@,
                            )),
                        },
                    }
                },
                AesMode::Cbc => if iv.len() != 16 {
                    Err(("ERR_CRYPTO_INVALID_IV"@, "CBC requires a 16-byte IV"@))
                } else if encrypt {
                    Ok((cbc_encrypt_of(key, iv, data), None))
                } else {
                    match cbc_decrypt_of(key, iv, data) {
                        Some(pt) => Ok((pt, None)),
                        None => Err(("ERR_CRYPTO_OPERATION_FAILED"@, "bad decrypt (invalid padding)"@)),
                    }
                },
                AesMode::Ctr => if iv.len() != 16 {
                    Err(("ERR_CRYPTO_INVALID_IV"@, "CTR requires a 16-byte IV"@))
                } else {
                    Ok((ctr_of(key, iv, data), None))
                },
            }
        },
    }
}

/// Whether `r` is the outcome `expected`.
pub open spec fn cipher_outcome_is(
    r: Result<CipherOutput, CryptoHookError>,
    expected: Result<(Seq<u8>, Option<Seq<u8>>), (Seq<char>, Seq<char>)>,
) -> bool {
    match expected {
        Ok((d, t)) => r is Ok && r->Ok_0.data@ == d && opt_vec_view(r->Ok_0.tag) == t,
        Err((code, message)) => r is Err && r->Err_0.code@ == code && r->Err_0.message@ == message,
    }
}

fn cipher_error(code: &str, message: &str) -> (r: CryptoHookError)
    ensures
        r.code@ == code@,
        r.message@ == message@,
{
    CryptoHookError { code: code.to_owned(), message: message.to_owned() }
}

/// One AES encryption or decryption: `algo` names the cipher
/// (`aes-{128,192,256}-{gcm,cbc,ctr}`), the key must have its length, GCM
/// takes a 12-byte IV and the others a 16-byte one. GCM encryption returns
/// the tag apart from the ciphertext; GCM decryption needs it.
///
/// Decryption gives back what encryption with the same algorithm, key, IV
/// and additional data turned into the given input and tag.
#[verifier::rlimit(60)]
pub fn aes_run(
    encrypt: bool,
    algo: &str,
    key: &[u8],
    iv: &[u8],
    data: &[u8],
    aad: Option<&[u8]>,
    tag: Option<&[u8]>,
) -> (r: Result<CipherOutput, CryptoHookError>)
    ensures
        cipher_outcome_is(r, aes_result(encrypt, algo@, key@, iv@, data@, bytes_or_empty(aad), opt_slice_view(tag))),
        !encrypt ==> forall|p: Seq<u8>, t: Option<Seq<u8>>|
            #[trigger] aes_result(true, algo@, key@, iv@, p, bytes_or_empty(aad), t)
                == Ok::<(Seq<u8>, Option<Seq<u8>>), (Seq<char>, Seq<char>)>((data@, opt_slice_view(tag)))
                ==> (r is Ok && r->Ok_0.data@ == p),
        encrypt && aes_mode_is(algo@, AesMode::Gcm) && r is Ok ==> r->Ok_0.data@.len() == data@.len()
            && r->Ok_0.tag is Some && r->Ok_0.tag->0@.len() == 16,
        aes_mode_is(algo@, AesMode::Ctr) && r is Ok ==> r->Ok_0.data@.len() == data@.len()
            && r->Ok_0.tag is None,
{
    let (key_len, mode) = match parse_aes_algo(algo) {
        Some(x) => x,
        None => {
            let mut m = String::from_str("Unknown cipher: ");
            m.append(algo);
            return Err(CryptoHookError { code: "ERR_CRYPTO_UNKNOWN_CIPHER".to_owned(), message: m });
        },
    };
    if key.len() != key_len {
        let mut m = String::from_str("Invalid key length ");
        let n = decimal_string(key.len());
        m.append(n.as_str());
        m.append(" for ");
        m.append(algo);
        return Err(CryptoHookError { code: "ERR_CRYPTO_INVALID_KEYLEN".to_owned(), message: m });
    }
    let empty: Vec<u8> = Vec::new();
    let aad_bytes: &[u8] = match aad {
        Some(a) => a,
        None => empty.as_slice(),
    };
    assert(aad_bytes@ == bytes_or_empty(aad));
    match mode {
        AesMode::Gcm => {
            if iv.len() != 12 {
                return Err(cipher_error("ERR_CRYPTO_INVALID_IV", "GCM requires a 12-byte IV in the NANO runtime"));
            }
            if encrypt {
                match gcm_seal(key, iv, data, aad_bytes) {
                    Some(ct) => {
                        let mut body = ct;
                        let split = body.len() - 16;
                        let tail = body.split_off(split);
                        Ok(CipherOutput { data: body, tag: Some(tail) })
                    },
                    None => Err(cipher_error("ERR_CRYPTO_OPERATION_FAILED", "GCM encrypt failed")),
                }
            } else {
                let t = match tag {
                    Some(t) => t,
                    None => {
                        return Err(cipher_error("ERR_CRYPTO_INVALID_STATE", "GCM decrypt requires an auth tag"));
                    },
                };
                let mut combined: Vec<u8> = Vec::new();
                combined.extend_from_slice(data);
                combined.extend_from_slice(t);
                assert(combined@ == data@ + t@);
                let r = gcm_open(key, iv, combined.as_slice(), aad_bytes);
                proof {
                    assert forall|p: Seq<u8>, tt: Option<Seq<u8>>|
                        #[trigger] aes_result(true, algo@, key@, iv@, p, bytes_or_empty(aad), tt)
                            == Ok::<(Seq<u8>, Option<Seq<u8>>), (Seq<char>, Seq<char>)>((data@, opt_slice_view(tag)))
                        implies (r is Some && r->0@ == p) by {
                        let ct = gcm_seal_of(key@, iv@, p, aad_bytes@)->0;
                        assert(ct =~= ct.subrange(0, ct.len() - 16) + ct.subrange(ct.len() - 16, ct.len() as int));
                        assert(gcm_seal_of(key@, iv@, p, aad_bytes@) == Some(combined@));
                    }
                }
                match r {
                    Some(pt) => Ok(CipherOutput { data: pt, tag: None }),
                    None => Err(cipher_error(
                        "ERR_CRYPTO_INVALID_AUTH_TAG",
                        "Unsupported state or unable to authenticate data",
                    )),
                }
            }
        },
        AesMode::Cbc => {
            if iv.len() != 16 {
                return Err(cipher_error("ERR_CRYPTO_INVALID_IV", "CBC requires a 16-byte IV"));
            }
            if encrypt {
                Ok(CipherOutput { data: cbc_encrypt(key, iv, data), tag: None })
            } else {
                match cbc_decrypt(key, iv, data) {
                    Some(pt) => Ok(CipherOutput { data: pt, tag: None }),
                    None => Err(cipher_error("ERR_CRYPTO_OPERATION_FAILED", "bad decrypt (invalid padding)")),
                }
            }
        },
        AesMode::Ctr => {
            if iv.len() != 16 {
                return Err(cipher_error("ERR_CRYPTO_INVALID_IV", "CTR requires a 16-byte IV"));
            }
            Ok(CipherOutput { data: ctr_apply(key, iv, data), tag: None })
        },
    }
}

/// `cryptoCipher`: `op` is `encrypt` or `decrypt`; any other operation is
/// refused with `ERR_INVALID_ARG_TYPE`.
pub fn crypto_cipher(
    op: &str,
    algo: &str,
    key: &[u8],
    iv: &[u8],
    data: &[u8],
    aad: Option<&[u8]>,
    tag: Option<&[u8]>,
) -> (r: Result<CipherOutput, CryptoHookError>)
    ensures
        op@ == "encrypt"@ ==> cipher_outcome_is(r, aes_result(true, algo@, key@, iv@, data@, bytes_or_empty(aad), opt_slice_view(tag))),
        op@ == "decrypt"@ ==> cipher_outcome_is(r, aes_result(false, algo@, key@, iv@, data@, bytes_or_empty(aad), opt_slice_view(tag))),
        op@ != "encrypt"@ && op@ != "decrypt"@ ==> cipher_outcome_is(r, Err(("ERR_INVALID_ARG_TYPE"@, "__nano_node_host.cryptoCipher: invalid argument types"@))),
        op@ == "encrypt"@ && aes_mode_is(algo@, AesMode::Gcm) && r is Ok ==> r->Ok_0.data@.len()
            == data@.len() && r->Ok_0.tag is Some && r->Ok_0.tag->0@.len() == 16,
        aes_mode_is(algo@, AesMode::Ctr) && r is Ok ==> r->Ok_0.data@.len() == data@.len()
            && r->Ok_0.tag is None,
{
    proof {
        reveal_strlit("encrypt");
        reveal_strlit("decrypt");
        assert("encrypt"@[0] != "decrypt"@[0]);
    }
    if str_eq(op, "encrypt") {
        aes_run(true, algo, key, iv, data, aad, tag)
    } else if str_eq(op, "decrypt") {
        aes_run(false, algo, key, iv, data, aad, tag)
    } else {
        Err(cipher_error("ERR_INVALID_ARG_TYPE", "__nano_node_host.cryptoCipher: invalid argument types"))
    }
}

} // verus!
