use ig_client::crypto::{CryptoError, Encryptor};
use rand::RngCore;

fn generate_random_key() -> [u8; 32] {
    let mut key = [0u8; 32];
    rand::rngs::OsRng.fill_bytes(&mut key);
    key
}

#[test]
fn test_encryption_decryption() {
    let key = generate_random_key();
    let encryptor = Encryptor::new(&key).unwrap();

    let plaintext = "Hello, World!";
    let ciphertext = encryptor.encrypt(plaintext).unwrap();
    let decrypted = encryptor.decrypt(&ciphertext).unwrap();

    assert_eq!(plaintext, decrypted);
}

#[test]
fn test_different_plaintexts() {
    let key = generate_random_key();
    let encryptor = Encryptor::new(&key).unwrap();

    let plaintexts = vec![
        "Short text",
        "A bit longer text with some numbers 12345",
        "Even longer text with special characters !@#$%^&*()",
        "Lorem ipsum dolor sit amet, consectetur adipiscing elit. Nullam non felis et augue.",
    ];

    for plaintext in plaintexts {
        let ciphertext = encryptor.encrypt(plaintext).unwrap();
        let decrypted = encryptor.decrypt(&ciphertext).unwrap();
        assert_eq!(plaintext, decrypted);
    }
}

#[test]
fn test_invalid_ciphertext() {
    let key = generate_random_key();
    let encryptor = Encryptor::new(&key).unwrap();

    let invalid_ciphertext = "This is not a valid ciphertext";
    assert!(encryptor.decrypt(invalid_ciphertext).is_err());
}

#[test]
fn test_different_keys() {
    let key1 = generate_random_key();
    let key2 = generate_random_key();
    let encryptor1 = Encryptor::new(&key1).unwrap();
    let encryptor2 = Encryptor::new(&key2).unwrap();

    let plaintext = "Secret message";
    let ciphertext = encryptor1.encrypt(plaintext).unwrap();

    // Trying to decrypt with a different key should fail
    assert!(encryptor2.decrypt(&ciphertext).is_err());
}

#[test]
fn encrypt_with_nonce_is_deterministic_and_round_trips() {
    let key = [7u8; 32];
    let encryptor = Encryptor::new(&key).unwrap();
    let nonce = vec![1u8; 12];

    let first = encryptor.encrypt_with_nonce(&nonce, "text").unwrap();
    let second = encryptor.encrypt_with_nonce(&nonce, "text").unwrap();
    assert_eq!(first, second);
    assert_eq!(encryptor.decrypt(&first).unwrap(), "text");
}

#[test]
fn wrong_key_length_is_refused() {
    assert!(matches!(Encryptor::new(&[0u8; 16]), Err(CryptoError::InvalidKey)));
    assert!(matches!(Encryptor::new(&[]), Err(CryptoError::InvalidKey)));
}

#[test]
fn too_short_ciphertext_is_refused() {
    let key = generate_random_key();
    let encryptor = Encryptor::new(&key).unwrap();
    // Valid base64, but shorter than a nonce once decoded.
    assert!(matches!(
        encryptor.decrypt("QUJD"),
        Err(CryptoError::InvalidCiphertext)
    ));
}

#[test]
fn ciphertext_differs_from_plaintext() {
    // The armoured text never hands the plaintext back unchanged.
    let key = generate_random_key();
    let encryptor = Encryptor::new(&key).unwrap();
    let plaintext = "Hello, World!";
    let ciphertext = encryptor.encrypt(plaintext).unwrap();
    assert_ne!(ciphertext, plaintext);
    assert!(!ciphertext.contains("Hello"));
}
