//! The key a client shares with its gateway, and the framing of the messages
//! encrypted under it.

use crate::primitives::{
    aead_decrypt, aead_encrypt, aes256_gcm_siv_open, aes256_gcm_siv_seal, bs58_decode,
    bs58_decoding, bs58_encode, bs58_encoding, AEAD_KEY_SIZE, AEAD_MAX_PLAINTEXT,
    AEAD_NONCE_SIZE, AEAD_TAG_SIZE, CTR_IV_SIZE, MAC_SIZE,
};
use crate::shared_key::legacy::LegacySharedKeys;
use vstd::prelude::*;
use vstd::slice::slice_to_vec;

pub mod laws;
pub mod legacy;

verus! {

/// Length in bytes of a current (AES-256-GCM-SIV) shared key.
pub const SHARED_KEY_SIZE: usize = 32;

/// What went wrong when a shared key was used, without the value that the cipher
/// crate attaches to a failure.
#[derive(Debug, Clone, Copy, PartialEq, Eq, Structural)]
pub enum KeyUsageFailure {
    TooShortRequest,
    InvalidMac,
    MalformedNonce,
    MissingAeadNonce,
    AeadFailure,
}

/// Failure to encrypt or decrypt with a shared key.
#[derive(Debug)]
pub enum SharedKeyUsageError {
    /// The request is too short.
    TooShortRequest,
    /// The provided MAC is invalid.
    InvalidMac,
    /// The provided nonce (or legacy IV) did not have the expected length.
    MalformedNonce,
    /// No nonce was provided for AEAD encryption.
    MissingAeadNonce,
    /// The AEAD cipher failed to encrypt or decrypt the message.
    AeadFailure(aes_gcm_siv::aead::Error),
}

impl SharedKeyUsageError {
    pub open spec fn failure(self) -> KeyUsageFailure {
        match self {
            SharedKeyUsageError::TooShortRequest => KeyUsageFailure::TooShortRequest,
            SharedKeyUsageError::InvalidMac => KeyUsageFailure::InvalidMac,
            SharedKeyUsageError::MalformedNonce => KeyUsageFailure::MalformedNonce,
            SharedKeyUsageError::MissingAeadNonce => KeyUsageFailure::MissingAeadNonce,
            SharedKeyUsageError::AeadFailure(_) => KeyUsageFailure::AeadFailure,
        }
    }
}

/// Failure to rebuild a shared key from its serialised form.
#[derive(Debug, Clone, Copy)]
pub enum SharedKeyConversionError {
    /// The base58 text of the key was malformed.
    DecodeError(bs58::decode::Error),
    /// The key material had the wrong length.
    InvalidSharedKeysSize { received: usize, expected: usize },
}

/// The bytes behind an optional slice.
pub open spec fn bytes_of(raw: Option<&[u8]>) -> Option<Seq<u8>> {
    match raw {
        Some(r) => Some(r@),
        None => None,
    }
}

/// The outcome of a use of a key, as bytes or the kind of failure.
pub open spec fn usage_outcome(res: Result<Vec<u8>, SharedKeyUsageError>) -> Result<Seq<u8>, KeyUsageFailure> {
    match res {
        Ok(v) => Ok(v@),
        Err(e) => Err(e.failure()),
    }
}

/// The nonce that raw bytes give for AEAD use: they must be present and exactly a
/// nonce long.
pub open spec fn spec_aead_nonce(raw: Option<Seq<u8>>) -> Result<Seq<u8>, KeyUsageFailure> {
    match raw {
        None => Err(KeyUsageFailure::MissingAeadNonce),
        Some(r) => if r.len() != AEAD_NONCE_SIZE {
            Err(KeyUsageFailure::MalformedNonce)
        } else {
            Ok(r)
        },
    }
}

/// The IV that raw bytes give for the legacy cipher: absent or empty bytes mean no
/// IV, otherwise they must be exactly an IV long.
pub open spec fn spec_cipher_iv(raw: Option<Seq<u8>>) -> Result<Option<Seq<u8>>, KeyUsageFailure> {
    match raw {
        None => Ok(None),
        Some(r) => if r.len() == 0 {
            Ok(None)
        } else if r.len() != CTR_IV_SIZE {
            Err(KeyUsageFailure::MalformedNonce)
        } else {
            Ok(Some(r))
        },
    }
}

/// AEAD encryption of a plaintext, failing above the plaintext bound.
pub open spec fn spec_aead_encrypt(key: Seq<u8>, nonce: Seq<u8>, plaintext: Seq<u8>) -> Result<Seq<u8>, KeyUsageFailure> {
    if plaintext.len() <= AEAD_MAX_PLAINTEXT {
        Ok(aes256_gcm_siv_seal(key, nonce, plaintext))
    } else {
        Err(KeyUsageFailure::AeadFailure)
    }
}

/// AEAD decryption of a ciphertext, failing where it does not authenticate.
pub open spec fn spec_aead_decrypt(key: Seq<u8>, nonce: Seq<u8>, ciphertext: Seq<u8>) -> Result<Seq<u8>, KeyUsageFailure> {
    match aes256_gcm_siv_open(key, nonce, ciphertext) {
        Some(p) => Ok(p),
        None => Err(KeyUsageFailure::AeadFailure),
    }
}

/// The key material that bytes make: exactly a key's length of them.
pub open spec fn spec_key_from_bytes(bytes: Seq<u8>) -> Option<Seq<u8>> {
    if bytes.len() == SHARED_KEY_SIZE {
        Some(bytes)
    } else {
        None
    }
}

/// The bytes of a key make that key again.
pub proof fn law_key_bytes_roundtrip(key: Seq<u8>)
    requires
        key.len() == SHARED_KEY_SIZE,
    ensures
        spec_key_from_bytes(key) == Some(key),
{
}

/// Bytes make a key exactly when there are 32 of them, and the key is those bytes
/// unchanged.
pub proof fn law_key_is_its_bytes(bytes: Seq<u8>)
    ensures
        spec_key_from_bytes(bytes) is Some <==> bytes.len() == 32,
        spec_key_from_bytes(bytes) matches Some(k) ==> k == bytes,
{
}

/// The current shared key: 32 bytes of AES-256-GCM-SIV key material.
#[derive(Debug)]
pub struct SharedSymmetricKey {
    bytes: Vec<u8>,
}

impl View for SharedSymmetricKey {
    type V = Seq<u8>;

    closed spec fn view(&self) -> Seq<u8> {
        self.bytes@
    }
}

/// Whether two byte slices hold the same bytes.
pub(crate) fn same_bytes(a: &[u8], b: &[u8]) -> (res: bool)
    ensures
        res == (a@ == b@),
{
    if a.len() != b.len() {
        return false;
    }
    let mut i: usize = 0;
    while i < a.len()
        invariant
            a@.len() == b@.len(),
            i <= a@.len(),
            forall|j: int| 0 <= j < i ==> a@[j] == b@[j],
        decreases a@.len() - i,
    {
        if a[i] != b[i] {
            return false;
        }
        i = i + 1;
    }
    assert(a@ =~= b@);
    true
}

impl PartialEq for SharedSymmetricKey {
    fn eq(&self, other: &Self) -> (res: bool) {
        same_bytes(self.bytes.as_slice(), other.bytes.as_slice())
    }
}

impl vstd::std_specs::cmp::PartialEqSpecImpl for SharedSymmetricKey {
    open spec fn obeys_eq_spec() -> bool {
        true
    }

    open spec fn eq_spec(&self, other: &Self) -> bool {
        self@ == other@
    }
}

impl SharedSymmetricKey {
    #[verifier::type_invariant]
    spec fn has_key_length(self) -> bool {
        self.bytes@.len() == SHARED_KEY_SIZE
    }

    /// Rebuilds a key from exactly `SHARED_KEY_SIZE` bytes.
    pub fn try_from_bytes(bytes: &[u8]) -> (res: Result<Self, SharedKeyConversionError>)
        ensures
            match spec_key_from_bytes(bytes@) {
                Some(k) => res matches Ok(key) && key@ == k,
                None => res is Err,
            },
            res matches Err(e) ==> (e matches SharedKeyConversionError::InvalidSharedKeysSize { received, expected }
                && received == bytes@.len() && expected == SHARED_KEY_SIZE),
    {
        if bytes.len() != SHARED_KEY_SIZE {
            return Err(SharedKeyConversionError::InvalidSharedKeysSize {
                received: bytes.len(),
                expected: SHARED_KEY_SIZE,
            });
        }
        Ok(SharedSymmetricKey { bytes: slice_to_vec(bytes) })
    }

    /// The key material.
    pub fn to_bytes(&self) -> (res: Vec<u8>)
        ensures
            res@ == self@,
            res@.len() == SHARED_KEY_SIZE,
    {
        proof { use_type_invariant(self); }
        slice_to_vec(self.bytes.as_slice())
    }

    /// Rebuilds a key from the base58 text of its bytes.
    pub fn try_from_base58_string(val: &str) -> (res: Result<Self, SharedKeyConversionError>)
        ensures
            match bs58_decoding(val@) {
                None => res matches Err(SharedKeyConversionError::DecodeError(_)),
                Some(b) => if b.len() == SHARED_KEY_SIZE {
                    res matches Ok(k) && k@ == b
                } else {
                    res matches Err(SharedKeyConversionError::InvalidSharedKeysSize { received, expected })
                        && received == b.len() && expected == SHARED_KEY_SIZE
                },
            },
            forall|b: Seq<u8>|
                #[trigger] bs58_encoding(b) == val@ && b.len() == SHARED_KEY_SIZE
                    ==> (res matches Ok(k) && k@ == b),
    {
        match bs58_decode(val) {
            Ok(decoded) => Self::try_from_bytes(decoded.as_slice()),
            Err(e) => Err(SharedKeyConversionError::DecodeError(e)),
        }
    }

    /// The base58 text of the key material.
    pub fn to_base58_string(&self) -> (res: String)
        ensures
            res@ == bs58_encoding(self@),
    {
        let bytes = self.to_bytes();
        bs58_encode(bytes.as_slice())
    }

    /// AES-256-GCM-SIV encryption of `plaintext` under this key and `nonce`.
    pub fn encrypt(&self, plaintext: &[u8], nonce: &[u8]) -> (res: Result<Vec<u8>, SharedKeyUsageError>)
        requires
            nonce@.len() == AEAD_NONCE_SIZE,
        ensures
            usage_outcome(res) == spec_aead_encrypt(self@, nonce@, plaintext@),
            res matches Ok(c) ==> c@.len() == plaintext@.len() + AEAD_TAG_SIZE,
    {
        proof { use_type_invariant(self); }
        match aead_encrypt(self.bytes.as_slice(), nonce, plaintext) {
            Ok(c) => Ok(c),
            Err(e) => Err(SharedKeyUsageError::AeadFailure(e)),
        }
    }

    /// AES-256-GCM-SIV decryption of `ciphertext` under this key and `nonce`; what
    /// `encrypt` produced with the same nonce decrypts to its plaintext.
    pub fn decrypt(&self, ciphertext: &[u8], nonce: &[u8]) -> (res: Result<Vec<u8>, SharedKeyUsageError>)
        requires
            nonce@.len() == AEAD_NONCE_SIZE,
        ensures
            usage_outcome(res) == spec_aead_decrypt(self@, nonce@, ciphertext@),
            forall|p: Seq<u8>|
                #[trigger] spec_aead_encrypt(self@, nonce@, p) == Ok::<Seq<u8>, KeyUsageFailure>(ciphertext@)
                    ==> usage_outcome(res) == Ok::<Seq<u8>, KeyUsageFailure>(p),
    {
        proof { use_type_invariant(self); }
        match aead_decrypt(self.bytes.as_slice(), nonce, ciphertext) {
            Ok(p) => Ok(p),
            Err(e) => Err(SharedKeyUsageError::AeadFailure(e)),
        }
    }

    /// The PEM label under which the key is stored.
    pub fn pem_type() -> (res: &'static str)
        ensures
            res@ == "AES-256-GCM-SIV GATEWAY SHARED KEY"@,
    {
        "AES-256-GCM-SIV GATEWAY SHARED KEY"
    }

    /// Rebuilds a key from the bytes of its PEM body.
    pub fn from_bytes(bytes: &[u8]) -> (res: Result<Self, SharedKeyConversionError>)
        ensures
            res is Ok <==> bytes@.len() == SHARED_KEY_SIZE,
            res matches Ok(k) ==> k@ == bytes@,
            res matches Err(e) ==> (e matches SharedKeyConversionError::InvalidSharedKeysSize { received, expected }
                && received == bytes@.len() && expected == SHARED_KEY_SIZE),
    {
        Self::try_from_bytes(bytes)
    }
}

/// The key shared with a gateway: either a current AES-256-GCM-SIV key or the
/// legacy AES-128-CTR and HMAC-SHA256 pair.
#[derive(Debug)]
pub enum SharedGatewayKey {
    Current(SharedSymmetricKey),
    Legacy(LegacySharedKeys),
}

impl PartialEq for SharedGatewayKey {
    fn eq(&self, other: &Self) -> (res: bool) {
        match (self, other) {
            (SharedGatewayKey::Current(a), SharedGatewayKey::Current(b)) => a == b,
            (SharedGatewayKey::Legacy(a), SharedGatewayKey::Legacy(b)) => a == b,
            _ => false,
        }
    }
}

impl vstd::std_specs::cmp::PartialEqSpecImpl for SharedGatewayKey {
    open spec fn obeys_eq_spec() -> bool {
        true
    }

    open spec fn eq_spec(&self, other: &Self) -> bool {
        match (*self, *other) {
            (SharedGatewayKey::Current(a), SharedGatewayKey::Current(b)) => a@ == b@,
            (SharedGatewayKey::Legacy(a), SharedGatewayKey::Legacy(b)) =>
                a.encryption_key() == b.encryption_key() && a.mac_key() == b.mac_key(),
            _ => false,
        }
    }
}

impl SharedGatewayKey {
    /// Encryption of `plaintext` with the nonce (or legacy IV) given as raw bytes.
    pub open spec fn spec_encrypt(self, plaintext: Seq<u8>, raw_nonce: Option<Seq<u8>>) -> Result<Seq<u8>, KeyUsageFailure> {
        match self {
            SharedGatewayKey::Current(key) => match spec_aead_nonce(raw_nonce) {
                Ok(nonce) => spec_aead_encrypt(key@, nonce, plaintext),
                Err(f) => Err(f),
            },
            SharedGatewayKey::Legacy(keys) => match spec_cipher_iv(raw_nonce) {
                Ok(iv) => Ok(keys.spec_encrypt_and_tag(plaintext, iv)),
                Err(f) => Err(f),
            },
        }
    }

    /// Decryption of `ciphertext` with the nonce (or legacy IV) given as raw bytes.
    pub open spec fn spec_decrypt(self, ciphertext: Seq<u8>, raw_nonce: Option<Seq<u8>>) -> Result<Seq<u8>, KeyUsageFailure> {
        match self {
            SharedGatewayKey::Current(key) => match spec_aead_nonce(raw_nonce) {
                Ok(nonce) => spec_aead_decrypt(key@, nonce, ciphertext),
                Err(f) => Err(f),
            },
            SharedGatewayKey::Legacy(keys) => match spec_cipher_iv(raw_nonce) {
                Ok(iv) => keys.spec_decrypt_tagged(ciphertext, iv),
                Err(f) => Err(f),
            },
        }
    }

    /// How many bytes encryption adds to a message: the AEAD tag, or the legacy MAC.
    pub open spec fn overhead(self) -> nat {
        match self {
            SharedGatewayKey::Current(_) => AEAD_TAG_SIZE as nat,
            SharedGatewayKey::Legacy(_) => MAC_SIZE as nat,
        }
    }

    /// The AEAD nonce in `raw`: it must be present and exactly a nonce long.
    pub fn aead_nonce(raw: Option<&[u8]>) -> (res: Result<Vec<u8>, SharedKeyUsageError>)
        ensures
            usage_outcome(res) == spec_aead_nonce(bytes_of(raw)),
    {
        let raw = match raw {
            Some(r) => r,
            None => return Err(SharedKeyUsageError::MissingAeadNonce),
        };
        if raw.len() != AEAD_NONCE_SIZE {
            return Err(SharedKeyUsageError::MalformedNonce);
        }
        Ok(slice_to_vec(raw))
    }

    /// The legacy IV in `raw`: none when `raw` is absent or empty, otherwise it must
    /// be exactly an IV long.
    pub fn cipher_iv<'a>(raw: Option<&'a [u8]>) -> (res: Result<Option<&'a [u8]>, SharedKeyUsageError>)
        ensures
            match spec_cipher_iv(bytes_of(raw)) {
                Ok(iv) => res matches Ok(r) && bytes_of(r) == iv,
                Err(f) => res matches Err(e) && e.failure() == f,
            },
    {
        let raw = match raw {
            Some(r) => r,
            None => return Ok(None),
        };
        let iv = if raw.len() == 0 {
            None
        } else {
            if raw.len() != CTR_IV_SIZE {
                return Err(SharedKeyUsageError::MalformedNonce);
            }
            Some(raw)
        };
        Ok(iv)
    }

    /// Encrypts `plaintext`; `raw_nonce` is the AEAD nonce of a current key or the
    /// IV of legacy keys.
    pub fn encrypt(&self, plaintext: &[u8], raw_nonce: Option<&[u8]>) -> (res: Result<Vec<u8>, SharedKeyUsageError>)
        ensures
            usage_outcome(res) == self.spec_encrypt(plaintext@, bytes_of(raw_nonce)),
            res matches Ok(c) ==> c@.len() == plaintext@.len() + self.overhead(),
    {
        match self {
            SharedGatewayKey::Current(aes_gcm_siv) => {
                let nonce = match Self::aead_nonce(raw_nonce) {
                    Ok(n) => n,
                    Err(e) => return Err(e),
                };
                aes_gcm_siv.encrypt(plaintext, nonce.as_slice())
            },
            SharedGatewayKey::Legacy(aes_ctr) => {
                let iv = match Self::cipher_iv(raw_nonce) {
                    Ok(iv) => iv,
                    Err(e) => return Err(e),
                };
                Ok(aes_ctr.encrypt_and_tag(plaintext, iv))
            },
        }
    }

    /// Decrypts `ciphertext`; `raw_nonce` is the AEAD nonce of a current key or the
    /// IV of legacy keys. What `encrypt` produced with the same raw nonce decrypts to
    /// its plaintext.
    pub fn decrypt(&self, ciphertext: &[u8], raw_nonce: Option<&[u8]>) -> (res: Result<Vec<u8>, SharedKeyUsageError>)
        ensures
            usage_outcome(res) == self.spec_decrypt(ciphertext@, bytes_of(raw_nonce)),
            forall|p: Seq<u8>|
                #[trigger] self.spec_encrypt(p, bytes_of(raw_nonce)) == Ok::<Seq<u8>, KeyUsageFailure>(ciphertext@)
                    ==> usage_outcome(res) == Ok::<Seq<u8>, KeyUsageFailure>(p),
    {
        match self {
            SharedGatewayKey::Current(aes_gcm_siv) => {
                let nonce = match Self::aead_nonce(raw_nonce) {
                    Ok(n) => n,
                    Err(e) => return Err(e),
                };
                aes_gcm_siv.decrypt(ciphertext, nonce.as_slice())
            },
            SharedGatewayKey::Legacy(aes_ctr) => {
                let iv = match Self::cipher_iv(raw_nonce) {
                    Ok(iv) => iv,
                    Err(e) => return Err(e),
                };
                aes_ctr.decrypt_tagged(ciphertext, iv)
            },
        }
    }
}

} // verus!
