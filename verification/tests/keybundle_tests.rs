use enchat_core::keybundle::{IdentityKey, ManagedKey, MessageKeyType, Onetime, Prekey, SignedKey};
use enchat_core::keys::to_base58;

#[test]
fn convert_to_base58() {
    let bytes: Vec<u8> = vec![0xDE, 0xAD, 0xBE, 0xEF];
    assert_eq!(to_base58(&bytes), "6h8cQN");
}

#[test]
fn message_key_type_follows_direction_flag() {
    assert!(matches!(MessageKeyType::from_receiving(true), MessageKeyType::Receiving));
    assert!(matches!(MessageKeyType::from_receiving(false), MessageKeyType::Sending));
}

#[test]
fn onetime_keys_carry_their_sequential_id() {
    let key = Onetime::generate_id(7);
    assert_eq!(key.id, 7);
    assert_eq!(Onetime::generate().id, 0);
}

#[test]
fn public_key_matches_keypair() {
    let identity = IdentityKey::generate();
    let from_pair = identity.get_keypair().public_key();
    assert_eq!(identity.get_public_key().to_bytes(), from_pair.to_bytes());
}

#[test]
fn prekey_bundle_carries_signature() {
    let identity = IdentityKey::generate();
    let prekey = SignedKey::generate();
    let signature = prekey.signature(identity.get_keypair());
    let bundle = Prekey(prekey, signature);
    assert_eq!(bundle.1.len(), 64);
}
