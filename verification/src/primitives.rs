//! The cryptographic and encoding primitives that the keys are built on, each one a
//! thin call into the crate that provides it.

use aes_gcm_siv::aead::{Aead, KeyInit};
use ctr::cipher::{KeyIvInit, StreamCipher};
use hmac::Mac;
use vstd::prelude::*;

verus! {

/// Length in bytes of an AES-256-GCM-SIV key.
pub const AEAD_KEY_SIZE: usize = 32;

/// Length in bytes of an AES-256-GCM-SIV nonce.
pub const AEAD_NONCE_SIZE: usize = 12;

/// Length in bytes of the authentication tag that AES-256-GCM-SIV appends.
pub const AEAD_TAG_SIZE: usize = 16;

/// Largest plaintext, in bytes, that AES-GCM-SIV accepts (RFC 8452, section 6).
pub const AEAD_MAX_PLAINTEXT: u64 = 0x10_0000_0000;

/// Length in bytes of an AES-128 key.
pub const CTR_KEY_SIZE: usize = 16;

/// Length in bytes of the initial counter block of AES-128-CTR.
pub const CTR_IV_SIZE: usize = 16;

/// Length in bytes of an HMAC-SHA256 tag.
pub const MAC_SIZE: usize = 32;

/// The failure value of the `aead` crate.
#[verifier::external_type_specification]
#[verifier::external_body]
pub struct ExAeadError(aes_gcm_siv::aead::Error);

/// The failure value of base58 decoding.
#[verifier::external_type_specification]
#[verifier::external_body]
pub struct ExBs58DecodeError(bs58::decode::Error);

/// AES-256-GCM-SIV encryption (ciphertext followed by its tag) of a plaintext under
/// a key and a nonce, with empty associated data.
pub uninterp spec fn aes256_gcm_siv_seal(key: Seq<u8>, nonce: Seq<u8>, plaintext: Seq<u8>) -> Seq<u8>;

/// AES-256-GCM-SIV decryption of a ciphertext under a key and a nonce, with empty
/// associated data: `None` where the tag does not authenticate the ciphertext.
pub uninterp spec fn aes256_gcm_siv_open(key: Seq<u8>, nonce: Seq<u8>, ciphertext: Seq<u8>) -> Option<Seq<u8>>;

/// The AES-128-CTR keystream (64-bit big-endian counter) for a key and an initial
/// counter block, XORed onto data.
pub uninterp spec fn aes128_ctr_xor(key: Seq<u8>, iv: Seq<u8>, data: Seq<u8>) -> Seq<u8>;

/// HMAC-SHA256 of data under a key.
pub uninterp spec fn hmac_sha256_tag(key: Seq<u8>, data: Seq<u8>) -> [u8; 32];

/// The base58 (Bitcoin alphabet) encoding of bytes.
pub uninterp spec fn bs58_encoding(bytes: Seq<u8>) -> Seq<char>;

/// The bytes that a base58 (Bitcoin alphabet) string decodes to; `None` where the
/// string is not base58.
pub uninterp spec fn bs58_decoding(text: Seq<char>) -> Option<Seq<u8>>;

/// `<Aes256GcmSiv as Aead>::encrypt` with empty associated data.
/// Claimed of it: it fails exactly when the plaintext is longer than the RFC 8452
/// bound (`encrypt_in_place_detached` checks `P_MAX`), and otherwise returns the
/// AES-256-GCM-SIV ciphertext, which is the plaintext's length plus the 16-byte tag.
#[verifier::external_body]
pub(crate) fn aead_encrypt(key: &[u8], nonce: &[u8], plaintext: &[u8]) -> (res: Result<Vec<u8>, aes_gcm_siv::aead::Error>)
    requires
        key@.len() == AEAD_KEY_SIZE,
        nonce@.len() == AEAD_NONCE_SIZE,
    ensures
        res is Ok <==> plaintext@.len() <= AEAD_MAX_PLAINTEXT,
        res matches Ok(c) ==> c@ == aes256_gcm_siv_seal(key@, nonce@, plaintext@),
        res matches Ok(c) ==> c@.len() == plaintext@.len() + AEAD_TAG_SIZE,
{
    let cipher = aes_gcm_siv::Aes256GcmSiv::new(aes_gcm_siv::Key::<aes_gcm_siv::Aes256GcmSiv>::from_slice(key));
    cipher.encrypt(aes_gcm_siv::Nonce::from_slice(nonce), plaintext)
}

/// `<Aes256GcmSiv as Aead>::decrypt` with empty associated data.
/// Claimed of it: it returns the AES-256-GCM-SIV decryption, failing where that
/// fails, and it gives back the plaintext of any ciphertext that `encrypt` produced
/// under the same key and nonce (the defining property of an AEAD).
#[verifier::external_body]
pub(crate) fn aead_decrypt(key: &[u8], nonce: &[u8], ciphertext: &[u8]) -> (res: Result<Vec<u8>, aes_gcm_siv::aead::Error>)
    requires
        key@.len() == AEAD_KEY_SIZE,
        nonce@.len() == AEAD_NONCE_SIZE,
    ensures
        res matches Ok(p) ==> aes256_gcm_siv_open(key@, nonce@, ciphertext@) == Some(p@),
        res is Err ==> aes256_gcm_siv_open(key@, nonce@, ciphertext@) is None,
        forall|p: Seq<u8>|
            p.len() <= AEAD_MAX_PLAINTEXT && #[trigger] aes256_gcm_siv_seal(key@, nonce@, p) == ciphertext@
                ==> (res is Ok && res->Ok_0@ == p),
{
    let cipher = aes_gcm_siv::Aes256GcmSiv::new(aes_gcm_siv::Key::<aes_gcm_siv::Aes256GcmSiv>::from_slice(key));
    cipher.decrypt(aes_gcm_siv::Nonce::from_slice(nonce), ciphertext)
}

/// `StreamCipher::apply_keystream` of a fresh `Ctr64BE<Aes128>` on a copy of `data`.
/// Claimed of it: the result has the length of `data` and is the keystream XORed
/// onto it, so that applying it to the result of an earlier application under the
/// same key and counter block gives back that earlier input. A fresh cipher never
/// runs out of counter blocks (`Ctr64BE::remaining` is `u64::MAX` at the start), so
/// the call does not panic.
#[verifier::external_body]
pub(crate) fn aes128_ctr_apply(key: &[u8], iv: &[u8], data: &[u8]) -> (res: Vec<u8>)
    requires
        key@.len() == CTR_KEY_SIZE,
        iv@.len() == CTR_IV_SIZE,
    ensures
        res@ == aes128_ctr_xor(key@, iv@, data@),
        res@.len() == data@.len(),
        forall|d: Seq<u8>| #[trigger] aes128_ctr_xor(key@, iv@, d) == data@ ==> res@ == d,
{
    let mut cipher = ctr::Ctr64BE::<aes::Aes128>::new(key.into(), iv.into());
    let mut out = data.to_vec();
    cipher.apply_keystream(&mut out);
    out
}

/// `Hmac<Sha256>`: `new_from_slice`, `update`, `finalize`.
/// Claimed of it: the 32-byte HMAC-SHA256 tag of `data` under `key` (HMAC takes
/// keys of any length, so `new_from_slice` does not fail).
#[verifier::external_body]
pub(crate) fn hmac_sha256(key: &[u8], data: &[u8]) -> (res: Vec<u8>)
    ensures
        res@ == hmac_sha256_tag(key@, data@)@,
{
    let mut mac = <hmac::Hmac<sha2::Sha256> as Mac>::new_from_slice(key).expect("HMAC accepts keys of any length");
    mac.update(data);
    mac.finalize().into_bytes().to_vec()
}

/// `Hmac<Sha256>`: `new_from_slice`, `update`, `verify_slice`.
/// Claimed of it: it accepts exactly the tag that equals the HMAC-SHA256 of `data`
/// under `key` (`verify_slice` checks the length, then compares in constant time).
#[verifier::external_body]
pub(crate) fn hmac_sha256_verify(key: &[u8], data: &[u8], tag: &[u8]) -> (res: bool)
    ensures
        res == (tag@ == hmac_sha256_tag(key@, data@)@),
{
    let mut mac = <hmac::Hmac<sha2::Sha256> as Mac>::new_from_slice(key).expect("HMAC accepts keys of any length");
    mac.update(data);
    mac.verify_slice(tag).is_ok()
}

/// `bs58::encode(bytes).into_string()`.
/// Claimed of it: the base58 encoding of the bytes.
#[verifier::external_body]
pub(crate) fn bs58_encode(bytes: &[u8]) -> (res: String)
    ensures
        res@ == bs58_encoding(bytes@),
{
    bs58::encode(bytes).into_string()
}

/// `bs58::decode(text).into_vec()`.
/// Claimed of it: the decoded bytes, failing where the text is not base58; and the
/// encoding of some bytes decodes back to those bytes (the crate's test cases are
/// shared by its encoder and decoder tests).
#[verifier::external_body]
pub(crate) fn bs58_decode(text: &str) -> (res: Result<Vec<u8>, bs58::decode::Error>)
    ensures
        res matches Ok(v) ==> bs58_decoding(text@) == Some(v@),
        res is Err ==> bs58_decoding(text@) is None,
        forall|b: Seq<u8>| #[trigger] bs58_encoding(b) == text@ ==> (res is Ok && res->Ok_0@ == b),
{
    bs58::decode(text).into_vec()
}

} // verus!
