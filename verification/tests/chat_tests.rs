use enchat_core::chat::ChatState;
use enchat_core::keybundle::{IdentityKey, ManagedKey, Onetime, SignedKey};
use enchat_core::keys::{Key, PublicKey};

#[test]
fn bob_alice_should_share_same_initial_key() {
    let alice_id = IdentityKey::generate();
    let alice_ephemeral = IdentityKey::generate();
    let bob_onetime = Onetime::generate();
    let bob_id = IdentityKey::generate();
    let bob_prekey = SignedKey::generate();
    let bob_onetime_public = bob_onetime.get_public_key();
    let alice_dh = ChatState::dh_sender(
        alice_ephemeral.get_keypair(),
        alice_id.get_keypair(),
        &bob_id.get_public_key(),
        &bob_prekey.get_public_key(),
        Some(&bob_onetime_public),
    );
    let bob_dh = ChatState::dh_receiver(
        &alice_ephemeral.get_public_key(),
        bob_id.get_keypair(),
        &alice_id.get_public_key(),
        bob_prekey.get_keypair(),
        Some(&bob_onetime),
    );
    assert_eq!(alice_dh, bob_dh);
}

#[test]
fn x3dh_symmetry_without_onetime_key() {
    let alice_id = IdentityKey::generate();
    let alice_ephemeral = IdentityKey::generate();
    let bob_id = IdentityKey::generate();
    let bob_prekey = SignedKey::generate();
    let alice_dh = ChatState::dh_sender(
        alice_ephemeral.get_keypair(),
        alice_id.get_keypair(),
        &bob_id.get_public_key(),
        &bob_prekey.get_public_key(),
        None,
    );
    let bob_dh = ChatState::dh_receiver(
        &alice_ephemeral.get_public_key(),
        bob_id.get_keypair(),
        &alice_id.get_public_key(),
        bob_prekey.get_keypair(),
        None,
    );
    assert_eq!(alice_dh, bob_dh);
}

#[test]
fn bob_should_be_able_to_receive_alice() {
    let psk = vec![0x02u8; 32];
    let bob_keypair = IdentityKey::generate();
    let mut initial_alice_chat = ChatState::new_sender(&bob_keypair.get_public_key(), psk.clone());
    let (alice_rachet_key, alice_message_key, _) = initial_alice_chat.move_sender();
    let mut initial_bob_chat =
        ChatState::new_receiver(bob_keypair.get_keypair().duplicate(), &alice_rachet_key, psk);
    let bob_message_key = initial_bob_chat.move_receiver(&alice_rachet_key);
    assert_eq!(alice_message_key, bob_message_key);
}

#[test]
fn bob_should_be_able_to_receive_alice_multiple() {
    let psk = vec![0x02u8; 32];
    let bob_keypair = IdentityKey::generate();
    let mut initial_alice_chat = ChatState::new_sender(&bob_keypair.get_public_key(), psk.clone());
    let mut messages: Vec<(PublicKey, Vec<u8>)> = Vec::new();
    for _ in 0..4 {
        let (alice_rachet_key, alice_message_key, _) = initial_alice_chat.move_sender();
        messages.push((alice_rachet_key, alice_message_key));
    }
    let mut initial_bob_chat = ChatState::new_receiver(
        bob_keypair.get_keypair().duplicate(),
        &messages[0].0,
        psk.clone(),
    );
    for message in &messages {
        let bob_message_key = initial_bob_chat.move_receiver(&message.0);
        assert_eq!(message.1, bob_message_key);
        println!("Valid");
    }
}

#[test]
fn bob_alice_should_pingpong_multiple_times() {
    let psk = vec![0x02u8; 32];
    let bob_keypair = IdentityKey::generate();
    let mut initial_alice_chat = ChatState::new_sender(&bob_keypair.get_public_key(), psk.clone());
    let mut initial_bob_chat: Option<ChatState> = None;
    for x in 0..5 {
        let (alice_rachet_key, alice_message_key, _) = initial_alice_chat.move_sender();
        if x == 0 {
            initial_bob_chat = Some(ChatState::new_receiver(
                bob_keypair.get_keypair().duplicate(),
                &alice_rachet_key,
                psk.clone(),
            ));
        }
        assert_eq!(
            initial_bob_chat.as_mut().unwrap().move_receiver(&alice_rachet_key),
            alice_message_key
        );
        let (bob_rachet_key, bob_message_key, _) = initial_bob_chat.as_mut().unwrap().move_sender();
        assert_eq!(initial_alice_chat.move_receiver(&bob_rachet_key), bob_message_key);
    }
}

#[test]
fn paired_stream_agrees_on_all_keys() {
    let (sent, received) = ChatState::paired_session_stream(vec![0x02u8; 32], 5);
    assert_eq!(sent.len(), 5);
    assert_eq!(sent, received);
    assert_ne!(sent[0], sent[1]);
}

#[test]
fn paired_pingpong_agrees_on_all_keys() {
    let result = ChatState::paired_session_pingpong(vec![0x02u8; 32], 50);
    let (sent, received) = result.expect("ratchet key collision");
    assert_eq!(sent.len(), 200);
    assert_eq!(sent, received);
}

#[test]
fn generated_keys_differ() {
    let a = Key::generate();
    let b = Key::generate();
    assert_ne!(a.to_bytes(), b.to_bytes());
    assert_ne!(a.public_key().to_bytes(), b.public_key().to_bytes());
}

#[test]
fn session_save_load_restores_chains() {
    let psk = vec![0x02u8; 32];
    let bob_keypair = IdentityKey::generate();
    let mut alice = ChatState::new_sender(&bob_keypair.get_public_key(), psk);
    let (_, _, _) = alice.move_sender();
    let record = alice.save();
    let restored = ChatState::load(&record);
    assert_eq!(restored.root_chain, alice.root_chain);
    assert_eq!(restored.sender_chain, alice.sender_chain);
    assert_eq!(restored.receiver_chain, alice.receiver_chain);
    assert_eq!(
        restored.rachet.our_keypair.to_bytes(),
        alice.rachet.our_keypair.to_bytes()
    );
    assert_eq!(
        restored.rachet.their_public.to_bytes(),
        alice.rachet.their_public.to_bytes()
    );
    assert!(restored.receiver_used_keys.is_none());
}

#[test]
fn freshly_established_session_is_fresh() {
    let psk = vec![0x02u8; 32];
    let bob_keypair = IdentityKey::generate();
    let bob = ChatState::new_receiver(
        bob_keypair.get_keypair().duplicate(),
        &bob_keypair.get_public_key(),
        psk.clone(),
    );
    assert!(bob.is_fresh());
    let mut alice = ChatState::new_sender(&bob_keypair.get_public_key(), psk);
    let (_, _, _) = alice.move_sender();
    assert!(!alice.is_fresh());
}
