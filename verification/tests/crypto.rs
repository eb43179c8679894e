use stegrust::crypto::{
    decrypt_full, decrypt_with_key, derive_key, encrypt, encrypt_full, encrypt_with_nonce,
    gen_nonce, gen_salt, zeroize_bytes, CryptoError,
};

fn hex_bytes(s: &str) -> Vec<u8> {
    (0..s.len())
        .step_by(2)
        .map(|i| u8::from_str_radix(&s[i..i + 2], 16).unwrap())
        .collect()
}

#[test]
fn test_encrypt_decrypt_with_key() {
    let key = [0x43; 32];
    let plaintext = b"terrifyingly great password that is undecipherable even against a gazillion attacks";
    let encrypted = encrypt(plaintext, &key).unwrap();
    let decrypted = decrypt_with_key(&encrypted, &key).unwrap();
    assert_eq!(&decrypted, plaintext);
}

#[test]
fn test_full_roundtrip() {
    let password = "terrifyingly great password and indistinguishable from the one in the other test";
    let original = b"image content";
    let salt = gen_salt().unwrap();
    let key = derive_key(password, &salt).unwrap();
    let encrypted_part = encrypt(original, &key).unwrap();
    let mut payload = salt.to_vec();
    payload.extend_from_slice(&encrypted_part);
    let decrypted = decrypt_full(&payload, password).unwrap();
    assert_eq!(&decrypted, original);
}

#[test]
fn test_wrong_password() {
    let password = "correct_one";
    let wrong = "wrong_one";

    let salt = gen_salt().unwrap();
    let key = derive_key(password, &salt).unwrap();
    let plaintext = b"dados";
    let encrypted_part = encrypt(plaintext, &key).unwrap();
    let mut payload = salt.to_vec();
    payload.extend_from_slice(&encrypted_part);
    assert_eq!(decrypt_full(&payload, wrong), Err(CryptoError::Decryption));
}

// AES-256-GCM, all-zero key and nonce, empty plaintext: only the tag.
#[test]
fn aes_gcm_known_answer_empty() {
    let key = [0u8; 32];
    let nonce = [0u8; 12];
    let out = encrypt_with_nonce(b"", &key, &nonce).unwrap();
    let mut expected = nonce.to_vec();
    expected.extend_from_slice(&hex_bytes("530f8afbc74536b9a963b4f1c4cb738b"));
    assert_eq!(out, expected);
    assert_eq!(decrypt_with_key(&out, &key).unwrap(), Vec::<u8>::new());
}

// AES-256-GCM, all-zero key and nonce, 16 zero bytes of plaintext.
#[test]
fn aes_gcm_known_answer_block() {
    let key = [0u8; 32];
    let nonce = [0u8; 12];
    let out = encrypt_with_nonce(&[0u8; 16], &key, &nonce).unwrap();
    let mut expected = nonce.to_vec();
    expected.extend_from_slice(&hex_bytes("cea7403d4d606b6e074ec5d3baf39d18"));
    expected.extend_from_slice(&hex_bytes("d0d1c8a799996bf0265b98b5d48ab919"));
    assert_eq!(out, expected);
    assert_eq!(decrypt_with_key(&out, &key).unwrap(), vec![0u8; 16]);
}

#[test]
fn encrypt_layout_is_nonce_ciphertext_tag() {
    let key = [7u8; 32];
    let out = encrypt(b"hello", &key).unwrap();
    assert_eq!(out.len(), 12 + 5 + 16);
    let mut nonce = [0u8; 12];
    nonce.copy_from_slice(&out[..12]);
    assert_eq!(encrypt_with_nonce(b"hello", &key, &nonce).unwrap(), out);
}

#[test]
fn decrypt_with_key_short_payload() {
    let key = [1u8; 32];
    assert_eq!(decrypt_with_key(&[0u8; 11], &key), Err(CryptoError::Decryption));
    // A nonce without any tag does not open either.
    assert_eq!(decrypt_with_key(&[0u8; 12], &key), Err(CryptoError::Decryption));
}

#[test]
fn decrypt_with_key_rejects_tampering_and_wrong_key() {
    let key = [9u8; 32];
    let mut out = encrypt_with_nonce(b"secret", &key, &[3u8; 12]).unwrap();
    assert_eq!(decrypt_with_key(&out, &[8u8; 32]), Err(CryptoError::Decryption));
    out[14] ^= 1;
    assert_eq!(decrypt_with_key(&out, &key), Err(CryptoError::Decryption));
}

#[test]
fn decrypt_full_short_payload() {
    assert_eq!(decrypt_full(&[0u8; 27], "pw"), Err(CryptoError::PayloadTooShort));
    assert_eq!(decrypt_full(&[], "pw"), Err(CryptoError::PayloadTooShort));
}

#[test]
fn derive_key_is_a_function_of_password_and_salt() {
    let salt = [5u8; 16];
    let k1 = derive_key("master", &salt).unwrap();
    let k2 = derive_key("master", &salt).unwrap();
    assert_eq!(k1, k2);
    assert_ne!(&k1[..6], b"master");
    let k3 = derive_key("master", &[6u8; 16]).unwrap();
    assert_ne!(k1, k3);
}

#[test]
fn encrypt_full_roundtrip_and_layout() {
    let payload = encrypt_full(b"github_token: ghp_123456", "pw").unwrap();
    assert_eq!(payload.len(), 16 + 12 + 24 + 16);
    assert_eq!(decrypt_full(&payload, "pw").unwrap(), b"github_token: ghp_123456".to_vec());
}

#[test]
fn random_values_differ() {
    assert_ne!(gen_salt().unwrap(), gen_salt().unwrap());
    assert_ne!(gen_nonce().unwrap(), gen_nonce().unwrap());
}

#[test]
fn zeroize_bytes_clears_everything() {
    let mut data = vec![1u8, 2, 3, 255];
    zeroize_bytes(&mut data);
    assert_eq!(data, vec![0u8; 4]);
    let mut empty: Vec<u8> = Vec::new();
    zeroize_bytes(&mut empty);
    assert!(empty.is_empty());
}

#[test]
fn payloads_without_a_full_tag_fail() {
    let key = [4u8; 32];
    assert_eq!(decrypt_with_key(&[0u8; 27], &key), Err(CryptoError::Decryption));
    assert_eq!(decrypt_full(&[0u8; 28], "pw"), Err(CryptoError::Decryption));
}

#[test]
fn decrypted_length_is_payload_minus_overhead() {
    let key = [4u8; 32];
    let sealed = encrypt_with_nonce(b"abcdef", &key, &[1u8; 12]).unwrap();
    let opened = decrypt_with_key(&sealed, &key).unwrap();
    assert_eq!(opened.len() + 12 + 16, sealed.len());
}
