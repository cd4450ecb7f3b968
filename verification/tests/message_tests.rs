use enchat_core::chat::ChatState;
use enchat_core::errors::SessionError;
use enchat_core::keybundle::{IdentityKey, ManagedKey};
use enchat_core::keys::PublicKey;
use enchat_core::message::{receive_inner, send_inner, try_decrypt, Message, MessageHeader};

fn mock_alice_state(bob_public: &PublicKey) -> ChatState {
    let psk = vec![0x02u8; 32];
    ChatState::new_sender(bob_public, psk)
}

fn mock_bob_state(bob_keypair: &IdentityKey, alice_public: &PublicKey) -> ChatState {
    let psk = vec![0x02u8; 32];
    ChatState::new_receiver(bob_keypair.get_keypair().duplicate(), alice_public, psk)
}

#[test]
fn bob_should_decrypt_alice_sent_message() {
    let bob = IdentityKey::generate();
    let mut alice_state = mock_alice_state(&bob.get_public_key());
    let sent = send_inner(&mut alice_state, &"test".as_bytes().to_vec());
    let mut bob_state = mock_bob_state(&bob, &sent.message.header.rachet_key);
    let received = receive_inner(&mut bob_state, &sent.message);
    assert!(received.is_ok());
    let decrypted = received.unwrap().plaintext;
    assert!(decrypted.is_some());
    assert!(decrypted.unwrap() == "test".as_bytes());
}

#[test]
fn bob_should_decrypt_alice_sent_multiple_message() {
    let bob = IdentityKey::generate();
    let mut alice_state = mock_alice_state(&bob.get_public_key());
    let messages: Vec<Message> = (0..10)
        .map(|_| send_inner(&mut alice_state, &"test".as_bytes().to_vec()).message)
        .collect();
    let mut bob_state = mock_bob_state(&bob, &messages[0].header.rachet_key);
    for message in messages {
        let decrypted = receive_inner(&mut bob_state, &message).unwrap().plaintext;
        assert!(decrypted.is_some());
        assert!(decrypted.unwrap() == "test".as_bytes());
    }
}

#[test]
fn bob_should_decrypt_alice_sent_messages_out_of_order() {
    let bob = IdentityKey::generate();
    let mut alice_state = mock_alice_state(&bob.get_public_key());
    let messages: Vec<Message> = (0..80)
        .map(|_| send_inner(&mut alice_state, &"test".as_bytes().to_vec()).message)
        .collect();
    let mut bob_state = mock_bob_state(&bob, &messages[0].header.rachet_key);
    let decrypted = receive_inner(&mut bob_state, &messages[6]).unwrap().plaintext;
    assert!(decrypted.is_some());
    assert!(decrypted.unwrap() == "test".as_bytes());
    let decrypted = receive_inner(&mut bob_state, &messages[8]).unwrap().plaintext;
    assert!(decrypted.is_some());
    assert!(decrypted.unwrap() == "test".as_bytes());
    let decrypted = receive_inner(&mut bob_state, &messages[11]).unwrap().plaintext;
    assert!(decrypted.is_some());
    assert!(decrypted.unwrap() == "test".as_bytes());
    let decrypted = receive_inner(&mut bob_state, &messages[50]).unwrap().plaintext;
    assert!(decrypted.is_some());
    assert!(decrypted.unwrap() == "test".as_bytes());
    let decrypted = receive_inner(&mut bob_state, &messages[79]).unwrap().plaintext;
    assert!(decrypted.is_some());
    assert!(decrypted.unwrap() == "test".as_bytes());
}

#[test]
pub fn alice_should_pingpong_bob_out_of_order() {
    let bob = IdentityKey::generate();
    let mut alice_state = mock_alice_state(&bob.get_public_key());
    let initial_message = send_inner(&mut alice_state, &"test".as_bytes().to_vec()).message;
    let mut bob_state = mock_bob_state(&bob, &initial_message.header.rachet_key);
    receive_inner(&mut bob_state, &initial_message).unwrap().plaintext.unwrap();
    for _ in 0..100 {
        let messages: Vec<Message> = (0..120)
            .map(|_| send_inner(&mut alice_state, &"test".as_bytes().to_vec()).message)
            .collect();
        let decrypted = receive_inner(&mut bob_state, &messages[29]).unwrap().plaintext;
        assert!(decrypted.is_some());
        assert!(decrypted.unwrap() == "test".as_bytes());
        let bob_messages: Vec<Message> = (0..120)
            .map(|_| send_inner(&mut bob_state, &"test".as_bytes().to_vec()).message)
            .collect();
        let decrypted = receive_inner(&mut alice_state, &bob_messages[29]).unwrap().plaintext;
        assert!(decrypted.is_some());
        assert!(decrypted.unwrap() == "test".as_bytes());
        println!("Pass")
    }
}

#[test]
fn bob_should_receive_alice_message_sent_after_alice_chat_reopen() {
    let bob = IdentityKey::generate();
    let mut alice_state = mock_alice_state(&bob.get_public_key());
    let initial_message = send_inner(&mut alice_state, &"test".as_bytes().to_vec()).message;
    let mut bob_state = mock_bob_state(&bob, &initial_message.header.rachet_key);
    receive_inner(&mut bob_state, &initial_message).unwrap().plaintext.unwrap();
    assert_eq!(bob_state.receiver_chain, alice_state.sender_chain);
    alice_state = ChatState::load(&alice_state.save());
    assert_eq!(bob_state.receiver_chain, alice_state.sender_chain);
    let second_message = send_inner(&mut alice_state, &"test2".as_bytes().to_vec()).message;
    let second_decrypted = receive_inner(&mut bob_state, &second_message).unwrap().plaintext;
    assert_eq!(bob_state.receiver_chain, alice_state.sender_chain);
    assert_eq!(second_decrypted.unwrap(), "test2".as_bytes());
}

#[test]
fn skipped_keys_allow_late_decryption() {
    let bob = IdentityKey::generate();
    let mut alice_state = mock_alice_state(&bob.get_public_key());
    let first = send_inner(&mut alice_state, &"early".as_bytes().to_vec()).message;
    let second = send_inner(&mut alice_state, &"late".as_bytes().to_vec()).message;
    let mut bob_state = mock_bob_state(&bob, &second.header.rachet_key);
    let outcome = receive_inner(&mut bob_state, &second).unwrap();
    assert_eq!(outcome.plaintext.unwrap(), "late".as_bytes());
    assert_eq!(outcome.skipped_keys.len(), 1);
    assert_eq!(outcome.skipped_keys[0].id, first.header.id);
    let recovered = try_decrypt(&outcome.skipped_keys[0].key, &first);
    assert_eq!(recovered.unwrap(), "early".as_bytes());
}

#[test]
fn replayed_message_is_rejected() {
    let bob = IdentityKey::generate();
    let mut alice_state = mock_alice_state(&bob.get_public_key());
    let sent = send_inner(&mut alice_state, &"test".as_bytes().to_vec()).message;
    let mut bob_state = mock_bob_state(&bob, &sent.header.rachet_key);
    assert!(receive_inner(&mut bob_state, &sent).unwrap().plaintext.is_some());
    let replayed = receive_inner(&mut bob_state, &sent);
    assert_eq!(replayed.unwrap_err(), SessionError::AuthenticationFailure);
}

#[test]
fn counter_gap_over_cap_overflows() {
    let bob = IdentityKey::generate();
    let mut alice_state = mock_alice_state(&bob.get_public_key());
    let mut last: Option<Message> = None;
    for _ in 0..1002 {
        last = Some(send_inner(&mut alice_state, &"test".as_bytes().to_vec()).message);
    }
    let last = last.unwrap();
    let mut bob_state = mock_bob_state(&bob, &last.header.rachet_key);
    let outcome = receive_inner(&mut bob_state, &last);
    assert_eq!(outcome.unwrap_err(), SessionError::SkippedKeyOverflow);
}

#[test]
fn tampered_header_fails_decryption() {
    let bob = IdentityKey::generate();
    let mut alice_state = mock_alice_state(&bob.get_public_key());
    let sent = send_inner(&mut alice_state, &"test".as_bytes().to_vec()).message;
    let mut tampered = sent.clone();
    tampered.header.id += 1;
    let mut bob_state = mock_bob_state(&bob, &sent.header.rachet_key);
    let outcome = receive_inner(&mut bob_state, &tampered).unwrap();
    assert!(outcome.plaintext.is_none());
}

#[test]
fn tampered_ciphertext_fails_decryption() {
    let bob = IdentityKey::generate();
    let mut alice_state = mock_alice_state(&bob.get_public_key());
    let sent = send_inner(&mut alice_state, &"test".as_bytes().to_vec()).message;
    let mut tampered = sent.clone();
    tampered.ciphertext[0] ^= 1;
    let mut bob_state = mock_bob_state(&bob, &sent.header.rachet_key);
    let outcome = receive_inner(&mut bob_state, &tampered).unwrap();
    assert!(outcome.plaintext.is_none());
}

#[test]
fn header_encoding_is_canonical() {
    let header = MessageHeader {
        id: 1,
        rachet_key: PublicKey::from_bytes(vec![7u8; 32]),
        initial: None,
        previous_receiver_length: 258,
    };
    let mut expected: Vec<u8> = vec![1, 0, 0, 0];
    expected.extend(vec![7u8; 32]);
    expected.push(0);
    expected.extend(vec![2, 1, 0, 0]);
    assert_eq!(header.encode(), expected);
}
