use vstd::prelude::*;

pub mod bytes;
pub mod chat;
pub mod encryption;
pub mod errors;
pub mod keybundle;
pub mod keys;
pub mod message;
pub mod signature;
pub mod store;
pub mod user;

verus! {

/// Number of bytes in a Curve25519 key, a chain key, and a derived message key.
pub const KEY_LEN: usize = 32;

} // verus!
