use enchat_core::keybundle::{ManagedKey, SignedKey};
use enchat_core::keys::Key;
use enchat_core::signature::{calculate_signature, verify_signature};

#[test]
fn sign_then_verify_succeeds() {
    let identity = Key::generate();
    let prekey = SignedKey::generate();
    let signature = prekey.signature(&identity);
    let message = prekey.get_public_key().to_bytes();
    assert!(verify_signature(&identity.public_key(), &message, &signature));
}

#[test]
fn signing_is_deterministic_in_its_inputs() {
    let identity = Key::generate();
    let message = "a message to sign".as_bytes().to_vec();
    let random = vec![0x42u8; 64];
    let first = calculate_signature(&identity, &random, &message);
    let second = calculate_signature(&identity, &random, &message);
    assert_eq!(first, second);
    assert!(verify_signature(&identity.public_key(), &message, &first));
}

#[test]
fn verification_fails_for_mutated_message() {
    let identity = Key::generate();
    let message = "a message to sign".as_bytes().to_vec();
    let random = vec![0x42u8; 64];
    let signature = calculate_signature(&identity, &random, &message);
    let mut mutated = message.clone();
    mutated[0] ^= 1;
    assert!(!verify_signature(&identity.public_key(), &mutated, &signature));
}

#[test]
fn verification_fails_for_mutated_signature() {
    let identity = Key::generate();
    let message = "a message to sign".as_bytes().to_vec();
    let random = vec![0x42u8; 64];
    let signature = calculate_signature(&identity, &random, &message);
    let mut mutated = signature.clone();
    mutated[0] ^= 1;
    assert!(!verify_signature(&identity.public_key(), &message, &mutated));
    let mut mutated = signature.clone();
    mutated[40] ^= 1;
    assert!(!verify_signature(&identity.public_key(), &message, &mutated));
}

#[test]
fn verification_fails_for_mismatched_public_key() {
    let identity = Key::generate();
    let other = Key::generate();
    let message = "a message to sign".as_bytes().to_vec();
    let random = vec![0x42u8; 64];
    let signature = calculate_signature(&identity, &random, &message);
    assert!(!verify_signature(&other.public_key(), &message, &signature));
}
