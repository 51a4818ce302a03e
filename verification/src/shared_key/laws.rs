//! What the shared keys do, stated over their inputs and the cipher, MAC and
//! encoding primitives alone.

use crate::primitives::{aes128_ctr_xor, aes256_gcm_siv_open, aes256_gcm_siv_seal, hmac_sha256_tag};
use crate::shared_key::legacy::{effective_iv, LegacySharedKeys};
use crate::shared_key::{
    bytes_of, spec_aead_decrypt, spec_aead_encrypt, spec_aead_nonce, spec_cipher_iv,
    usage_outcome, KeyUsageFailure, SharedGatewayKey, SharedKeyUsageError, SharedSymmetricKey,
};
use vstd::prelude::*;

verus! {

/// The counter block used when no IV is given: sixteen zero bytes.
pub open spec fn zero_block() -> Seq<u8> {
    Seq::new(16, |_i: int| 0u8)
}

/// Whether the first 32 bytes of `data` are the HMAC-SHA256, under `mac_key`, of
/// everything after them.
pub open spec fn tag_authenticates(mac_key: Seq<u8>, data: Seq<u8>) -> bool {
    &&& data.len() >= 32
    &&& data.subrange(0, 32) == hmac_sha256_tag(mac_key, data.subrange(32, data.len() as int))@
}

/// Raw IV bytes of an acceptable length: absent, empty, or sixteen bytes.
pub open spec fn is_iv_length(raw: Option<Seq<u8>>) -> bool {
    match raw {
        None => true,
        Some(r) => r.len() == 0 || r.len() == 16,
    }
}

/// Each error names its own kind of failure.
pub proof fn law_failure_names_the_error(e: SharedKeyUsageError)
    ensures
        (e.failure() == KeyUsageFailure::TooShortRequest) <==> (e is TooShortRequest),
        (e.failure() == KeyUsageFailure::InvalidMac) <==> (e is InvalidMac),
        (e.failure() == KeyUsageFailure::MalformedNonce) <==> (e is MalformedNonce),
        (e.failure() == KeyUsageFailure::MissingAeadNonce) <==> (e is MissingAeadNonce),
        (e.failure() == KeyUsageFailure::AeadFailure) <==> (e is AeadFailure),
{
}

/// The outcome of a use of a key is its bytes, or the kind of its error.
pub proof fn law_outcome_reports_result(res: Result<Vec<u8>, SharedKeyUsageError>)
    ensures
        res matches Ok(v) ==> usage_outcome(res) == Ok::<Seq<u8>, KeyUsageFailure>(v@),
        res matches Err(e) ==> usage_outcome(res) == Err::<Seq<u8>, KeyUsageFailure>(e.failure()),
{
}

/// Optional raw bytes are seen as they are.
pub proof fn law_raw_bytes_seen_as_given(raw: Option<&[u8]>)
    ensures
        raw matches Some(r) ==> bytes_of(raw) == Some(r@),
        raw is None ==> bytes_of(raw) is None,
{
}

/// The AEAD nonce is the raw bytes themselves when there are exactly twelve of
/// them; fewer or more are malformed, and no bytes at all is a missing nonce.
pub proof fn law_aead_nonce_is_the_raw_bytes(raw: Seq<u8>)
    ensures
        raw.len() == 12 ==> spec_aead_nonce(Some(raw)) == Ok::<Seq<u8>, KeyUsageFailure>(raw),
        raw.len() != 12 ==> spec_aead_nonce(Some(raw)) == Err::<Seq<u8>, KeyUsageFailure>(KeyUsageFailure::MalformedNonce),
        spec_aead_nonce(None) == Err::<Seq<u8>, KeyUsageFailure>(KeyUsageFailure::MissingAeadNonce),
{
}

/// The legacy IV is absent for absent or empty bytes, is the raw bytes themselves
/// when there are exactly sixteen of them, and is malformed otherwise.
pub proof fn law_cipher_iv_is_the_raw_bytes(raw: Seq<u8>)
    ensures
        spec_cipher_iv(None) == Ok::<Option<Seq<u8>>, KeyUsageFailure>(None),
        raw.len() == 0 ==> spec_cipher_iv(Some(raw)) == Ok::<Option<Seq<u8>>, KeyUsageFailure>(None),
        raw.len() == 16 ==> spec_cipher_iv(Some(raw)) == Ok::<Option<Seq<u8>>, KeyUsageFailure>(Some(raw)),
        raw.len() != 0 && raw.len() != 16 ==> spec_cipher_iv(Some(raw)) == Err::<Option<Seq<u8>>, KeyUsageFailure>(KeyUsageFailure::MalformedNonce),
{
}

/// AES-256-GCM-SIV encryption succeeds for every plaintext up to 2^36 bytes, giving
/// the AES-256-GCM-SIV ciphertext under that key and nonce, and fails above it.
pub proof fn law_aead_encrypt_is_the_cipher(key: Seq<u8>, nonce: Seq<u8>, plaintext: Seq<u8>)
    ensures
        plaintext.len() <= 0x10_0000_0000 ==> spec_aead_encrypt(key, nonce, plaintext)
            == Ok::<Seq<u8>, KeyUsageFailure>(aes256_gcm_siv_seal(key, nonce, plaintext)),
        plaintext.len() > 0x10_0000_0000 ==> spec_aead_encrypt(key, nonce, plaintext)
            == Err::<Seq<u8>, KeyUsageFailure>(KeyUsageFailure::AeadFailure),
{
}

/// AES-256-GCM-SIV decryption gives what the cipher opens, and fails exactly where
/// it does not open.
pub proof fn law_aead_decrypt_is_the_cipher(key: Seq<u8>, nonce: Seq<u8>, ciphertext: Seq<u8>)
    ensures
        aes256_gcm_siv_open(key, nonce, ciphertext) matches Some(p)
            ==> spec_aead_decrypt(key, nonce, ciphertext) == Ok::<Seq<u8>, KeyUsageFailure>(p),
        aes256_gcm_siv_open(key, nonce, ciphertext) is None
            ==> spec_aead_decrypt(key, nonce, ciphertext) == Err::<Seq<u8>, KeyUsageFailure>(KeyUsageFailure::AeadFailure),
{
}

/// A current gateway key encrypts with its key and the twelve raw nonce bytes as
/// given: exactly what the key itself does with that nonce.
pub proof fn law_current_key_encrypts_with_given_nonce(key: SharedSymmetricKey, plaintext: Seq<u8>, nonce: Seq<u8>)
    requires
        nonce.len() == 12,
    ensures
        SharedGatewayKey::Current(key).spec_encrypt(plaintext, Some(nonce)) == spec_aead_encrypt(key@, nonce, plaintext),
        plaintext.len() <= 0x10_0000_0000 ==> SharedGatewayKey::Current(key).spec_encrypt(plaintext, Some(nonce))
            == Ok::<Seq<u8>, KeyUsageFailure>(aes256_gcm_siv_seal(key@, nonce, plaintext)),
{
}

/// A current gateway key decrypts with its key and the twelve raw nonce bytes as
/// given.
pub proof fn law_current_key_decrypts_with_given_nonce(key: SharedSymmetricKey, ciphertext: Seq<u8>, nonce: Seq<u8>)
    requires
        nonce.len() == 12,
    ensures
        SharedGatewayKey::Current(key).spec_decrypt(ciphertext, Some(nonce)) == spec_aead_decrypt(key@, nonce, ciphertext),
        aes256_gcm_siv_open(key@, nonce, ciphertext) matches Some(p)
            ==> SharedGatewayKey::Current(key).spec_decrypt(ciphertext, Some(nonce)) == Ok::<Seq<u8>, KeyUsageFailure>(p),
        aes256_gcm_siv_open(key@, nonce, ciphertext) is None
            ==> SharedGatewayKey::Current(key).spec_decrypt(ciphertext, Some(nonce))
                == Err::<Seq<u8>, KeyUsageFailure>(KeyUsageFailure::AeadFailure),
{
}

/// Legacy encryption puts in front of the AES-128-CTR ciphertext of the whole
/// message the HMAC-SHA256 of that whole ciphertext, so the tag authenticates
/// everything after it. Without an IV the counter block is all zeroes.
pub proof fn law_legacy_tag_covers_whole_ciphertext(keys: LegacySharedKeys, message: Seq<u8>, iv: Option<Seq<u8>>)
    ensures
        ({
            let tagged = keys.spec_encrypt_and_tag(message, iv);
            let block = match iv {
                Some(v) => v,
                None => zero_block(),
            };
            &&& tagged.subrange(32, tagged.len() as int) == aes128_ctr_xor(keys.encryption_key(), block, message)
            &&& tag_authenticates(keys.mac_key(), tagged)
        }),
{
    let tagged = keys.spec_encrypt_and_tag(message, iv);
    assert(effective_iv(None) =~= zero_block());
    let ct = aes128_ctr_xor(keys.encryption_key(), effective_iv(iv), message);
    let t = hmac_sha256_tag(keys.mac_key(), ct)@;
    assert(t.len() == 32);
    assert(tagged.subrange(0, 32) =~= t);
    assert(tagged.subrange(32, tagged.len() as int) =~= ct);
}

/// Legacy decryption, whatever the IV, refuses data shorter than a tag, refuses
/// data whose tag does not authenticate the rest, and otherwise gives the
/// AES-128-CTR decryption of the rest.
pub proof fn law_legacy_decrypt_checks_tag(keys: LegacySharedKeys, data: Seq<u8>, iv: Option<Seq<u8>>)
    ensures
        data.len() < 32 ==> keys.spec_decrypt_tagged(data, iv)
            == Err::<Seq<u8>, KeyUsageFailure>(KeyUsageFailure::TooShortRequest),
        data.len() >= 32 && !tag_authenticates(keys.mac_key(), data) ==> keys.spec_decrypt_tagged(data, iv)
            == Err::<Seq<u8>, KeyUsageFailure>(KeyUsageFailure::InvalidMac),
        keys.spec_decrypt_tagged(data, iv) is Ok ==> tag_authenticates(keys.mac_key(), data),
        tag_authenticates(keys.mac_key(), data) ==> keys.spec_decrypt_tagged(data, iv) == Ok::<Seq<u8>, KeyUsageFailure>(
            aes128_ctr_xor(
                keys.encryption_key(),
                match iv {
                    Some(v) => v,
                    None => zero_block(),
                },
                data.subrange(32, data.len() as int),
            ),
        ),
{
    assert(effective_iv(None) =~= zero_block());
    if data.len() >= 32 {
        assert(data.take(32) =~= data.subrange(0, 32));
        assert(data.skip(32) =~= data.subrange(32, data.len() as int));
    }
}

/// A legacy gateway key encrypts under the IV given as raw bytes (all zeroes when
/// absent or empty), and its output always carries a tag that authenticates the
/// rest; raw bytes of another length are refused.
pub proof fn law_legacy_key_encrypt(keys: LegacySharedKeys, plaintext: Seq<u8>, raw: Option<Seq<u8>>)
    ensures
        raw matches Some(r) && r.len() != 0 && r.len() != 16 ==> SharedGatewayKey::Legacy(keys).spec_encrypt(plaintext, raw)
            == Err::<Seq<u8>, KeyUsageFailure>(KeyUsageFailure::MalformedNonce),
        SharedGatewayKey::Legacy(keys).spec_encrypt(plaintext, raw) matches Ok(tagged) ==> {
            let block = match raw {
                Some(r) => if r.len() == 16 { r } else { zero_block() },
                None => zero_block(),
            };
            &&& tag_authenticates(keys.mac_key(), tagged)
            &&& tagged.subrange(32, tagged.len() as int) == aes128_ctr_xor(keys.encryption_key(), block, plaintext)
        },
        is_iv_length(raw)
            ==> SharedGatewayKey::Legacy(keys).spec_encrypt(plaintext, raw) is Ok,
{
    match raw {
        Some(r) => {
            if r.len() == 16 {
                law_legacy_tag_covers_whole_ciphertext(keys, plaintext, Some(r));
            } else {
                law_legacy_tag_covers_whole_ciphertext(keys, plaintext, None);
            }
        },
        None => law_legacy_tag_covers_whole_ciphertext(keys, plaintext, None),
    }
}

/// A legacy gateway key accepts data only when its tag authenticates the rest, and
/// refuses data whose tag does not, whatever valid IV is given.
pub proof fn law_legacy_key_decrypt(keys: LegacySharedKeys, data: Seq<u8>, raw: Option<Seq<u8>>)
    ensures
        SharedGatewayKey::Legacy(keys).spec_decrypt(data, raw) is Ok ==> tag_authenticates(keys.mac_key(), data),
        is_iv_length(raw) && data.len() >= 32
            && !tag_authenticates(keys.mac_key(), data)
            ==> SharedGatewayKey::Legacy(keys).spec_decrypt(data, raw)
                == Err::<Seq<u8>, KeyUsageFailure>(KeyUsageFailure::InvalidMac),
{
    match spec_cipher_iv(raw) {
        Ok(iv) => law_legacy_decrypt_checks_tag(keys, data, iv),
        Err(_) => {},
    }
}

} // verus!
