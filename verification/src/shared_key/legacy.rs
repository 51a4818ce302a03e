//! The legacy shared keys: AES-128-CTR encryption authenticated by HMAC-SHA256,
//! with the tag in front of the ciphertext.

use crate::primitives::{
    aes128_ctr_apply, aes128_ctr_xor, hmac_sha256, hmac_sha256_tag, hmac_sha256_verify,
    CTR_IV_SIZE, CTR_KEY_SIZE, MAC_SIZE,
};
use crate::shared_key::{bytes_of, same_bytes, usage_outcome, KeyUsageFailure, SharedKeyConversionError, SharedKeyUsageError};
use vstd::prelude::*;
use vstd::slice::slice_to_vec;

verus! {

/// Length in bytes of the serialised legacy keys: the encryption key, then the MAC key.
pub const LEGACY_SHARED_KEYS_SIZE: usize = 48;

/// The IV used when none is given: all zero bytes.
pub open spec fn effective_iv(iv: Option<Seq<u8>>) -> Seq<u8> {
    match iv {
        Some(v) => v,
        None => Seq::new(CTR_IV_SIZE as nat, |_i: int| 0u8),
    }
}

/// An AES-128-CTR encryption key and an HMAC-SHA256 key.
#[derive(Debug)]
pub struct LegacySharedKeys {
    encryption_key: Vec<u8>,
    mac_key: Vec<u8>,
}

impl PartialEq for LegacySharedKeys {
    fn eq(&self, other: &Self) -> (res: bool) {
        same_bytes(self.encryption_key.as_slice(), other.encryption_key.as_slice())
            && same_bytes(self.mac_key.as_slice(), other.mac_key.as_slice())
    }
}

impl vstd::std_specs::cmp::PartialEqSpecImpl for LegacySharedKeys {
    open spec fn obeys_eq_spec() -> bool {
        true
    }

    open spec fn eq_spec(&self, other: &Self) -> bool {
        self.encryption_key() == other.encryption_key() && self.mac_key() == other.mac_key()
    }
}

impl LegacySharedKeys {
    #[verifier::type_invariant]
    spec fn has_key_lengths(self) -> bool {
        &&& self.encryption_key@.len() == CTR_KEY_SIZE
        &&& self.mac_key@.len() == MAC_SIZE
    }

    pub closed spec fn encryption_key(self) -> Seq<u8> {
        self.encryption_key@
    }

    pub closed spec fn mac_key(self) -> Seq<u8> {
        self.mac_key@
    }

    /// The tagged ciphertext of a message: the MAC of the ciphertext, then the
    /// ciphertext.
    pub open spec fn spec_encrypt_and_tag(self, message: Seq<u8>, iv: Option<Seq<u8>>) -> Seq<u8> {
        let ciphertext = aes128_ctr_xor(self.encryption_key(), effective_iv(iv), message);
        hmac_sha256_tag(self.mac_key(), ciphertext)@ + ciphertext
    }

    /// The message behind tagged ciphertext, once its MAC checks out.
    pub open spec fn spec_decrypt_tagged(self, data: Seq<u8>, iv: Option<Seq<u8>>) -> Result<Seq<u8>, KeyUsageFailure> {
        if data.len() < MAC_SIZE {
            Err(KeyUsageFailure::TooShortRequest)
        } else if data.take(MAC_SIZE as int) != hmac_sha256_tag(self.mac_key(), data.skip(MAC_SIZE as int))@ {
            Err(KeyUsageFailure::InvalidMac)
        } else {
            Ok(aes128_ctr_xor(self.encryption_key(), effective_iv(iv), data.skip(MAC_SIZE as int)))
        }
    }

    /// Rebuilds the keys from `LEGACY_SHARED_KEYS_SIZE` bytes: the encryption key
    /// first, then the MAC key.
    pub fn try_from_bytes(bytes: &[u8]) -> (res: Result<Self, SharedKeyConversionError>)
        ensures
            res is Ok <==> bytes@.len() == LEGACY_SHARED_KEYS_SIZE,
            res matches Ok(k) ==> k.encryption_key() == bytes@.take(CTR_KEY_SIZE as int)
                && k.mac_key() == bytes@.skip(CTR_KEY_SIZE as int),
            res matches Err(e) ==> (e matches SharedKeyConversionError::InvalidSharedKeysSize { received, expected }
                && received == bytes@.len() && expected == LEGACY_SHARED_KEYS_SIZE),
    {
        if bytes.len() != LEGACY_SHARED_KEYS_SIZE {
            return Err(SharedKeyConversionError::InvalidSharedKeysSize {
                received: bytes.len(),
                expected: LEGACY_SHARED_KEYS_SIZE,
            });
        }
        let (encryption_key, mac_key) = bytes.split_at(CTR_KEY_SIZE);
        Ok(LegacySharedKeys { encryption_key: slice_to_vec(encryption_key), mac_key: slice_to_vec(mac_key) })
    }

    /// The encryption key followed by the MAC key.
    pub fn to_bytes(&self) -> (res: Vec<u8>)
        ensures
            res@ == self.encryption_key() + self.mac_key(),
            res@.len() == LEGACY_SHARED_KEYS_SIZE,
    {
        proof { use_type_invariant(self); }
        let mut out = slice_to_vec(self.encryption_key.as_slice());
        let mut mac = slice_to_vec(self.mac_key.as_slice());
        out.append(&mut mac);
        out
    }

    fn zero_iv() -> (res: Vec<u8>)
        ensures
            res@ == effective_iv(None),
    {
        let mut iv: Vec<u8> = Vec::new();
        while iv.len() < CTR_IV_SIZE
            invariant
                iv@.len() <= CTR_IV_SIZE,
                forall|i: int| 0 <= i < iv@.len() ==> iv@[i] == 0u8,
            decreases CTR_IV_SIZE - iv@.len(),
        {
            iv.push(0u8);
        }
        assert(iv@ =~= effective_iv(None));
        iv
    }

    /// Encrypts `message` under the counter block `iv` (all zeroes when absent) and
    /// puts the MAC of the ciphertext in front of it.
    pub fn encrypt_and_tag(&self, message: &[u8], iv: Option<&[u8]>) -> (res: Vec<u8>)
        requires
            iv matches Some(v) ==> v@.len() == CTR_IV_SIZE,
        ensures
            res@ == self.spec_encrypt_and_tag(message@, bytes_of(iv)),
            res@.len() == MAC_SIZE + message@.len(),
    {
        proof { use_type_invariant(self); }
        let zero = Self::zero_iv();
        let counter_block: &[u8] = match iv {
            Some(v) => v,
            None => zero.as_slice(),
        };
        let mut ciphertext = aes128_ctr_apply(self.encryption_key.as_slice(), counter_block, message);
        let mut out = hmac_sha256(self.mac_key.as_slice(), ciphertext.as_slice());
        out.append(&mut ciphertext);
        out
    }

    /// Checks the MAC in front of `data` and decrypts the rest under the counter
    /// block `iv` (all zeroes when absent); what `encrypt_and_tag` produced with the
    /// same IV decrypts to its message.
    pub fn decrypt_tagged(&self, data: &[u8], iv: Option<&[u8]>) -> (res: Result<Vec<u8>, SharedKeyUsageError>)
        requires
            iv matches Some(v) ==> v@.len() == CTR_IV_SIZE,
        ensures
            usage_outcome(res) == self.spec_decrypt_tagged(data@, bytes_of(iv)),
            forall|m: Seq<u8>|
                #[trigger] self.spec_encrypt_and_tag(m, bytes_of(iv)) == data@
                    ==> usage_outcome(res) == Ok::<Seq<u8>, KeyUsageFailure>(m),
    {
        proof { use_type_invariant(self); }
        if data.len() < MAC_SIZE {
            proof {
                assert forall|m: Seq<u8>| #[trigger] self.spec_encrypt_and_tag(m, bytes_of(iv)) == data@ implies false by {
                    let ct = aes128_ctr_xor(self.encryption_key(), effective_iv(bytes_of(iv)), m);
                    assert(hmac_sha256_tag(self.mac_key(), ct)@.len() == MAC_SIZE);
                }
            }
            return Err(SharedKeyUsageError::TooShortRequest);
        }
        let (tag, body) = data.split_at(MAC_SIZE);
        assert(tag@ == data@.take(MAC_SIZE as int));
        assert(body@ == data@.skip(MAC_SIZE as int));
        if !hmac_sha256_verify(self.mac_key.as_slice(), body, tag) {
            proof {
                assert forall|m: Seq<u8>| #[trigger] self.spec_encrypt_and_tag(m, bytes_of(iv)) == data@ implies false by {
                    let ct = aes128_ctr_xor(self.encryption_key(), effective_iv(bytes_of(iv)), m);
                    let t = hmac_sha256_tag(self.mac_key(), ct)@;
                    assert(t.len() == MAC_SIZE);
                    assert(data@.take(MAC_SIZE as int) =~= t);
                    assert(data@.skip(MAC_SIZE as int) =~= ct);
                }
            }
            return Err(SharedKeyUsageError::InvalidMac);
        }
        let zero = Self::zero_iv();
        let counter_block: &[u8] = match iv {
            Some(v) => v,
            None => zero.as_slice(),
        };
        let plaintext = aes128_ctr_apply(self.encryption_key.as_slice(), counter_block, body);
        proof {
            assert forall|m: Seq<u8>| #[trigger] self.spec_encrypt_and_tag(m, bytes_of(iv)) == data@ implies plaintext@ == m by {
                let ct = aes128_ctr_xor(self.encryption_key(), effective_iv(bytes_of(iv)), m);
                let t = hmac_sha256_tag(self.mac_key(), ct)@;
                assert(t.len() == MAC_SIZE);
                assert(data@.skip(MAC_SIZE as int) =~= ct);
            }
        }
        Ok(plaintext)
    }
}

} // verus!
