use enchat_core::encryption::{decrypt, encrypt, kdf};
use enchat_core::errors::SessionError;

#[test]
fn should_encrypt_with_ad() {
    let key = vec![0x20u8; 32];
    let message = "Hello World".as_bytes().to_vec();
    let ad = "AD".as_bytes().to_vec();
    let encrypted = encrypt(&key, &message, &ad);
    let decrypted = decrypt(&key, &encrypted, &ad).expect("Failed to decrypt");
    assert_eq!(message, decrypted);
}

#[test]
fn encryption_should_fail_with_tempered_ad() {
    let key = vec![0x20u8; 32];
    let message = "Hello World".as_bytes().to_vec();
    let ad = "AD".as_bytes().to_vec();
    let encrypted = encrypt(&key, &message, &ad);
    let ad = "ADE".as_bytes().to_vec();
    let decrypted = decrypt(&key, &encrypted, &ad);
    assert!(decrypted.is_err());
    assert_eq!(decrypted.unwrap_err(), SessionError::AuthenticationFailure);
}

#[test]
fn decryption_should_fail_with_wrong_key() {
    let key = vec![0x20u8; 32];
    let message = "Hello World".as_bytes().to_vec();
    let ad = "AD".as_bytes().to_vec();
    let encrypted = encrypt(&key, &message, &ad);
    let key = vec![0x21u8; 32];
    let decrypted = decrypt(&key, &encrypted, &ad);
    assert!(decrypted.is_err());
}

#[test]
fn kdf_should_be_deterministic() {
    let key = vec![0x20u8; 32];
    let output = kdf(key.clone());
    let output2 = kdf(key);
    assert_eq!(output.0, output2.0);
    assert_eq!(output.1, output2.1);
}

#[test]
fn kdf_output_should_differ() {
    let key = vec![0x20u8; 32];
    let key2 = vec![0x21u8; 32];
    let output = kdf(key);
    let output2 = kdf(key2);
    assert_ne!(output.0, output2.0);
    assert_ne!(output.1, output2.1);
}

#[test]
fn kdf_output_should_differ_from_input() {
    let key = vec![0x20u8; 32];
    let output = kdf(key.clone());
    assert_ne!(output.0, key);
    assert_ne!(output.1, key);
}

#[test]
fn tampering_any_ad_bit_fails_decryption() {
    let key = vec![0x20u8; 32];
    let message = "Hello World".as_bytes().to_vec();
    let ad = "AD".as_bytes().to_vec();
    let encrypted = encrypt(&key, &message, &ad);
    for i in 0..ad.len() {
        for bit in 0..8 {
            let mut tampered = ad.clone();
            tampered[i] ^= 1 << bit;
            assert!(decrypt(&key, &encrypted, &tampered).is_err());
        }
    }
}

#[test]
fn tampering_any_ciphertext_bit_fails_decryption() {
    let key = vec![0x20u8; 32];
    let message = "Hello World".as_bytes().to_vec();
    let ad = "AD".as_bytes().to_vec();
    let encrypted = encrypt(&key, &message, &ad);
    for i in 0..encrypted.len() {
        for bit in 0..8 {
            let mut tampered = encrypted.clone();
            tampered[i] ^= 1 << bit;
            assert!(decrypt(&key, &tampered, &ad).is_err());
        }
    }
}

#[test]
fn decryption_fails_with_other_derived_key() {
    let seed = vec![0x20u8; 32];
    let first = kdf(seed.clone());
    let second = kdf(first.0.clone());
    let message = "Hello World".as_bytes().to_vec();
    let ad = "AD".as_bytes().to_vec();
    let encrypted = encrypt(&first.1, &message, &ad);
    assert!(decrypt(&second.1, &encrypted, &ad).is_err());
    assert!(decrypt(&first.1, &encrypted, &ad).is_ok());
}
