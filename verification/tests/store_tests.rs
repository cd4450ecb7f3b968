use enchat_core::store::{generate_database_key, get_key_keyring, store_key_keyring};
use enchat_core::user::User;

#[test]
fn database_key_is_64_hex_string() {
    let key = generate_database_key().to_hex();
    assert_eq!(key.len(), 64);
    for x in key.chars() {
        // should be able to parse into base 16 number if string is really hex
        assert!(x.to_digit(16).is_some())
    }
}

#[test]
fn database_keys_are_not_repeated() {
    let first = generate_database_key().to_hex();
    let second = generate_database_key().to_hex();
    assert_ne!(first, second);
}

#[test]
fn keyring_store_succeeds_without_platform_store() {
    // This build carries no platform keychain, so entries are mock-backed:
    // writing succeeds, and a fresh entry for the same name holds nothing.
    assert!(store_key_keyring("database", "database-key-value").is_ok());
    assert!(get_key_keyring("database").is_none());
}

#[test]
fn missing_keyring_key_is_none() {
    assert!(get_key_keyring("never-stored").is_none());
}

#[test]
fn default_user_is_logged_out() {
    let user = User::default();
    assert!(user.user_id.is_none());
}
