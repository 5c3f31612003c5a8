//! The cryptographic primitives that the IPMI session relies on: keyed
//! hashes (HMAC over MD5, SHA-1 and SHA-256), AES-128 in CBC mode without
//! padding, and random numbers. Each is computed by its outside crate; the
//! contracts below say what the library relies on.

use vstd::prelude::*;
use hmac::Mac;
use cipher::{BlockDecryptMut, BlockEncryptMut, KeyIvInit};
use rand::Rng;

verus! {

/// HMAC-MD5 of `data` under `key`.
pub uninterp spec fn hmac_md5_spec(key: Seq<u8>, data: Seq<u8>) -> Seq<u8>;

/// HMAC-SHA1 of `data` under `key`.
pub uninterp spec fn hmac_sha1_spec(key: Seq<u8>, data: Seq<u8>) -> Seq<u8>;

/// HMAC-SHA256 of `data` under `key`.
pub uninterp spec fn hmac_sha256_spec(key: Seq<u8>, data: Seq<u8>) -> Seq<u8>;

/// AES-128-CBC encryption of `plaintext` (whole blocks, no padding) under `key` and `iv`.
pub uninterp spec fn aes128_cbc_encrypt_spec(key: Seq<u8>, iv: Seq<u8>, plaintext: Seq<u8>) -> Seq<u8>;

/// AES-128-CBC decryption of `ciphertext` (whole blocks, no padding) under `key` and `iv`.
pub uninterp spec fn aes128_cbc_decrypt_spec(key: Seq<u8>, iv: Seq<u8>, ciphertext: Seq<u8>) -> Seq<u8>;

/// Why an AES-128-CBC operation was refused by the cipher crate.
#[derive(Debug, Clone, Copy, PartialEq, Eq)]
pub enum CipherFailure {
    /// The key or the IV is not 16 bytes long.
    KeyOrIvLength,
    /// The data is not a whole number of 16-byte blocks.
    BlockAlignment,
}

/// HMAC-MD5 through `hmac::Hmac<md5::Md5>`: `new_from_slice(key)`, `update(data)`,
/// `finalize()`. `new_from_slice` of an HMAC accepts a key of any length
/// (hmac 0.12, `HmacCore::new_from_slice` always returns `Ok`), and the tag is the
/// 16-byte MD5 output size.
#[verifier::external_body]
pub(crate) fn hmac_md5(key: &[u8], data: &[u8]) -> (r: Option<Vec<u8>>)
    ensures
        r is Some,
        r matches Some(d) ==> d@ == hmac_md5_spec(key@, data@) && d@.len() == 16,
{
    let mut m = match <hmac::Hmac<md5::Md5> as Mac>::new_from_slice(key) {
        Ok(m) => m,
        Err(_) => return None,
    };
    m.update(data);
    Some(m.finalize().into_bytes().to_vec())
}

/// HMAC-SHA1 through `hmac::Hmac<sha1::Sha1>`; any key length is accepted and the
/// tag is the 20-byte SHA-1 output size.
#[verifier::external_body]
pub(crate) fn hmac_sha1(key: &[u8], data: &[u8]) -> (r: Option<Vec<u8>>)
    ensures
        r is Some,
        r matches Some(d) ==> d@ == hmac_sha1_spec(key@, data@) && d@.len() == 20,
{
    let mut m = match <hmac::Hmac<sha1::Sha1> as Mac>::new_from_slice(key) {
        Ok(m) => m,
        Err(_) => return None,
    };
    m.update(data);
    Some(m.finalize().into_bytes().to_vec())
}

/// HMAC-SHA256 through `hmac::Hmac<sha2::Sha256>`; any key length is accepted and
/// the tag is the 32-byte SHA-256 output size.
#[verifier::external_body]
pub(crate) fn hmac_sha256(key: &[u8], data: &[u8]) -> (r: Option<Vec<u8>>)
    ensures
        r is Some,
        r matches Some(d) ==> d@ == hmac_sha256_spec(key@, data@) && d@.len() == 32,
{
    let mut m = match <hmac::Hmac<sha2::Sha256> as Mac>::new_from_slice(key) {
        Ok(m) => m,
        Err(_) => return None,
    };
    m.update(data);
    Some(m.finalize().into_bytes().to_vec())
}

/// AES-128-CBC encryption through `cbc::Encryptor<aes::Aes128>`:
/// `new_from_slices(key, iv)` refuses a key or IV that is not 16 bytes, and
/// `encrypt_padded_mut::<NoPadding>` refuses data that is not a whole number of
/// blocks. The ciphertext has the length of the plaintext, and decrypting it under
/// the same key and IV gives the plaintext back.
#[verifier::external_body]
pub(crate) fn aes128_cbc_encrypt(key: &[u8], iv: &[u8], data: &[u8]) -> (r: Result<Vec<u8>, CipherFailure>)
    ensures
        r is Ok <==> (key@.len() == 16 && iv@.len() == 16 && data@.len() % 16 == 0),
        r matches Err(e) ==> (e == CipherFailure::KeyOrIvLength <==> !(key@.len() == 16 && iv@.len() == 16)),
        r matches Ok(c) ==> c@ == aes128_cbc_encrypt_spec(key@, iv@, data@),
        r matches Ok(c) ==> c@.len() == data@.len(),
        r matches Ok(c) ==> aes128_cbc_decrypt_spec(key@, iv@, c@) == data@,
{
    let enc = match cbc::Encryptor::<aes::Aes128>::new_from_slices(key, iv) {
        Ok(e) => e,
        Err(_) => return Err(CipherFailure::KeyOrIvLength),
    };
    let mut buf = data.to_vec();
    match enc.encrypt_padded_mut::<cipher::block_padding::NoPadding>(&mut buf, data.len()) {
        Ok(ct) => Ok(ct.to_vec()),
        Err(_) => Err(CipherFailure::BlockAlignment),
    }
}

/// AES-128-CBC decryption through `cbc::Decryptor<aes::Aes128>`:
/// `new_from_slices(key, iv)` refuses a key or IV that is not 16 bytes, and
/// `decrypt_padded_mut::<NoPadding>` refuses data that is not a whole number of
/// blocks. The whole decrypted buffer is returned.
#[verifier::external_body]
pub(crate) fn aes128_cbc_decrypt(key: &[u8], iv: &[u8], data: &[u8]) -> (r: Result<Vec<u8>, CipherFailure>)
    ensures
        r is Ok <==> (key@.len() == 16 && iv@.len() == 16 && data@.len() % 16 == 0),
        r matches Err(e) ==> (e == CipherFailure::KeyOrIvLength <==> !(key@.len() == 16 && iv@.len() == 16)),
        r matches Ok(p) ==> p@ == aes128_cbc_decrypt_spec(key@, iv@, data@),
        r matches Ok(p) ==> p@.len() == data@.len(),
{
    let dec = match cbc::Decryptor::<aes::Aes128>::new_from_slices(key, iv) {
        Ok(d) => d,
        Err(_) => return Err(CipherFailure::KeyOrIvLength),
    };
    let mut buf = data.to_vec();
    match dec.decrypt_padded_mut::<cipher::block_padding::NoPadding>(&mut buf) {
        Ok(_) => Ok(buf),
        Err(_) => Err(CipherFailure::BlockAlignment),
    }
}

/// A random 32-bit value from `rand::thread_rng().gen()`. Nothing is stated of
/// which value comes back.
#[verifier::external_body]
pub(crate) fn random_u32() -> u32 {
    rand::thread_rng().gen()
}

/// `n` random bytes, filled by `rand::thread_rng().fill`. Only the length is
/// stated: the bytes themselves are chance.
#[verifier::external_body]
pub(crate) fn random_bytes(n: usize) -> (r: Vec<u8>)
    ensures
        r@.len() == n,
{
    let mut v = vec![0u8; n];
    rand::thread_rng().fill(&mut v[..]);
    v
}

} // verus!
