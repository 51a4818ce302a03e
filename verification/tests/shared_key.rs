use nymlib::shared_key::legacy::{LegacySharedKeys, LEGACY_SHARED_KEYS_SIZE};
use nymlib::shared_key::{
    SharedGatewayKey, SharedKeyConversionError, SharedKeyUsageError, SharedSymmetricKey,
    SHARED_KEY_SIZE,
};

fn hex(s: &str) -> Vec<u8> {
    (0..s.len())
        .step_by(2)
        .map(|i| u8::from_str_radix(&s[i..i + 2], 16).unwrap())
        .collect()
}

fn rfc_key() -> SharedSymmetricKey {
    let mut bytes = vec![0u8; 32];
    bytes[0] = 1;
    SharedSymmetricKey::try_from_bytes(&bytes).unwrap()
}

fn rfc_nonce() -> Vec<u8> {
    let mut nonce = vec![0u8; 12];
    nonce[0] = 3;
    nonce
}

fn legacy_keys() -> LegacySharedKeys {
    let mut bytes: Vec<u8> = (0u8..16).collect();
    bytes.extend(0x20u8..0x40);
    LegacySharedKeys::try_from_bytes(&bytes).unwrap()
}

#[test]
fn symmetric_key_encrypt_matches_rfc8452_vector() {
    let key = rfc_key();
    let ciphertext = key.encrypt(&hex("0100000000000000"), &rfc_nonce()).unwrap();
    assert_eq!(ciphertext, hex("c2ef328e5c71c83b843122130f7364b761e0b97427e3df28"));
}

#[test]
fn symmetric_key_encrypt_empty_plaintext_is_tag_only() {
    let key = rfc_key();
    let ciphertext = key.encrypt(&[], &rfc_nonce()).unwrap();
    assert_eq!(ciphertext, hex("07f5f4169bbf55a8400cd47ea6fd400f"));
}

#[test]
fn symmetric_key_decrypt_roundtrip() {
    let key = rfc_key();
    let ciphertext = key.encrypt(b"some request", &rfc_nonce()).unwrap();
    assert_eq!(ciphertext.len(), b"some request".len() + 16);
    assert_eq!(key.decrypt(&ciphertext, &rfc_nonce()).unwrap(), b"some request".to_vec());
}

#[test]
fn symmetric_key_decrypt_rejects_tampering() {
    let key = rfc_key();
    let mut ciphertext = key.encrypt(b"some request", &rfc_nonce()).unwrap();
    ciphertext[0] ^= 1;
    assert!(matches!(key.decrypt(&ciphertext, &rfc_nonce()), Err(SharedKeyUsageError::AeadFailure(_))));
}

#[test]
fn symmetric_key_decrypt_rejects_short_ciphertext() {
    let key = rfc_key();
    assert!(matches!(key.decrypt(&[1, 2, 3], &rfc_nonce()), Err(SharedKeyUsageError::AeadFailure(_))));
}

#[test]
fn try_from_bytes_rejects_wrong_length() {
    match SharedSymmetricKey::try_from_bytes(&[7u8; 31]) {
        Err(SharedKeyConversionError::InvalidSharedKeysSize { received, expected }) => {
            assert_eq!(received, 31);
            assert_eq!(expected, SHARED_KEY_SIZE);
        }
        _ => panic!("a 31-byte key must be refused"),
    }
    assert!(SharedSymmetricKey::try_from_bytes(&[7u8; 33]).is_err());
}

#[test]
fn bytes_roundtrip() {
    let bytes: Vec<u8> = (1u8..=32).collect();
    let key = SharedSymmetricKey::try_from_bytes(&bytes).unwrap();
    assert_eq!(key.to_bytes(), bytes);
    let again = SharedSymmetricKey::from_bytes(&key.to_bytes()).unwrap();
    assert_eq!(again.to_bytes(), bytes);
    assert_eq!(key.to_bytes().len(), SHARED_KEY_SIZE);
}

#[test]
fn base58_encoding_of_key() {
    let bytes: Vec<u8> = (1u8..=32).collect();
    let key = SharedSymmetricKey::try_from_bytes(&bytes).unwrap();
    assert_eq!(key.to_base58_string(), "4wBqpZM9xaSheZzJSMawUKKwhdpChKbZ5eu5ky4Vigw");
    let zero = SharedSymmetricKey::try_from_bytes(&[0u8; 32]).unwrap();
    assert_eq!(zero.to_base58_string(), "11111111111111111111111111111111");
}

#[test]
fn base58_roundtrip() {
    let bytes: Vec<u8> = (1u8..=32).collect();
    let key = SharedSymmetricKey::try_from_bytes(&bytes).unwrap();
    let text = key.to_base58_string();
    let back = SharedSymmetricKey::try_from_base58_string(&text).unwrap();
    assert_eq!(back.to_bytes(), bytes);
}

#[test]
fn base58_rejects_malformed_text() {
    assert!(matches!(
        SharedSymmetricKey::try_from_base58_string("0OIl"),
        Err(SharedKeyConversionError::DecodeError(_))
    ));
}

#[test]
fn base58_rejects_wrong_length_key() {
    match SharedSymmetricKey::try_from_base58_string("StV1DL6CwTryKyV") {
        Err(SharedKeyConversionError::InvalidSharedKeysSize { received, expected }) => {
            assert_eq!(received, 11);
            assert_eq!(expected, 32);
        }
        _ => panic!("\"hello world\" is not a key"),
    }
}

#[test]
fn pem_type_label() {
    assert_eq!(SharedSymmetricKey::pem_type(), "AES-256-GCM-SIV GATEWAY SHARED KEY");
}

#[test]
fn aead_nonce_errors() {
    assert!(matches!(SharedGatewayKey::aead_nonce(None), Err(SharedKeyUsageError::MissingAeadNonce)));
    assert!(matches!(SharedGatewayKey::aead_nonce(Some(&[0u8; 11])), Err(SharedKeyUsageError::MalformedNonce)));
    assert_eq!(SharedGatewayKey::aead_nonce(Some(&[5u8; 12])).unwrap(), vec![5u8; 12]);
}

#[test]
fn cipher_iv_cases() {
    assert!(matches!(SharedGatewayKey::cipher_iv(None), Ok(None)));
    assert!(matches!(SharedGatewayKey::cipher_iv(Some(&[])), Ok(None)));
    assert!(matches!(SharedGatewayKey::cipher_iv(Some(&[1u8; 15])), Err(SharedKeyUsageError::MalformedNonce)));
    let iv = [9u8; 16];
    assert_eq!(SharedGatewayKey::cipher_iv(Some(&iv)).unwrap(), Some(&iv[..]));
}

#[test]
fn gateway_key_current_encrypt_and_decrypt() {
    let key = SharedGatewayKey::Current(rfc_key());
    let nonce = rfc_nonce();
    let ciphertext = key.encrypt(&hex("0100000000000000"), Some(&nonce)).unwrap();
    assert_eq!(ciphertext, hex("c2ef328e5c71c83b843122130f7364b761e0b97427e3df28"));
    assert_eq!(key.decrypt(&ciphertext, Some(&nonce)).unwrap(), hex("0100000000000000"));
}

#[test]
fn gateway_key_current_requires_nonce() {
    let key = SharedGatewayKey::Current(rfc_key());
    assert!(matches!(key.encrypt(b"x", None), Err(SharedKeyUsageError::MissingAeadNonce)));
    assert!(matches!(key.decrypt(b"x", Some(&[0u8; 16])), Err(SharedKeyUsageError::MalformedNonce)));
}

#[test]
fn legacy_encrypt_matches_vector_with_zero_iv() {
    let key = SharedGatewayKey::Legacy(legacy_keys());
    let tagged = key.encrypt(b"hello gateway", None).unwrap();
    assert_eq!(
        tagged,
        hex("38a671a37fb86d2fadf1baf1abe6c5d6fcd282691dfdbbf7dc8b7f829eea0883aec4575be8af3ce31b2af603d8")
    );
    let same = key.encrypt(b"hello gateway", Some(&[])).unwrap();
    assert_eq!(same, tagged);
}

#[test]
fn legacy_encrypt_matches_vector_with_iv() {
    let key = SharedGatewayKey::Legacy(legacy_keys());
    let iv: Vec<u8> = (0x40u8..0x50).collect();
    let tagged = key.encrypt(b"hello gateway", Some(&iv)).unwrap();
    assert_eq!(
        tagged,
        hex("1fdd859b9e5de6c630ac945982e0eb49734d861047f6b0484cd91421046dae04bd5689f72a81348c0a3beb3c85")
    );
    assert_eq!(key.decrypt(&tagged, Some(&iv)).unwrap(), b"hello gateway".to_vec());
}

#[test]
fn legacy_decrypt_errors() {
    let key = SharedGatewayKey::Legacy(legacy_keys());
    assert!(matches!(key.decrypt(&[0u8; 31], None), Err(SharedKeyUsageError::TooShortRequest)));
    let mut tagged = key.encrypt(b"hello gateway", None).unwrap();
    tagged[40] ^= 0x80;
    assert!(matches!(key.decrypt(&tagged, None), Err(SharedKeyUsageError::InvalidMac)));
    assert!(matches!(key.encrypt(b"x", Some(&[1u8; 12])), Err(SharedKeyUsageError::MalformedNonce)));
}

#[test]
fn legacy_roundtrip_empty_message() {
    let keys = legacy_keys();
    let tagged = keys.encrypt_and_tag(&[], None);
    assert_eq!(tagged.len(), 32);
    assert_eq!(keys.decrypt_tagged(&tagged, None).unwrap(), Vec::<u8>::new());
}

#[test]
fn legacy_keys_bytes() {
    let keys = legacy_keys();
    let bytes = keys.to_bytes();
    assert_eq!(bytes.len(), LEGACY_SHARED_KEYS_SIZE);
    assert_eq!(&bytes[..16], &(0u8..16).collect::<Vec<u8>>()[..]);
    assert!(LegacySharedKeys::try_from_bytes(&bytes[..47]).is_err());
}

#[test]
fn key_equality() {
    let a = SharedSymmetricKey::try_from_bytes(&[1u8; 32]).unwrap();
    let b = SharedSymmetricKey::try_from_bytes(&[1u8; 32]).unwrap();
    let c = SharedSymmetricKey::try_from_bytes(&[2u8; 32]).unwrap();
    assert!(a == b);
    assert!(a != c);
    let current = SharedGatewayKey::Current(a);
    assert!(current == SharedGatewayKey::Current(b));
    assert!(current != SharedGatewayKey::Legacy(legacy_keys()));
    assert!(SharedGatewayKey::Legacy(legacy_keys()) == SharedGatewayKey::Legacy(legacy_keys()));
}
