use vstd::prelude::*;

use crate::keys::{pub_of, Key, PublicKey};
use crate::KEY_LEN;

verus! {

/// The capability interface of the key classes: a key can report its public
/// half and expose its private half. Implemented by the identity key, the
/// signed prekey and the one-time prekey; each views as the private scalar it
/// holds.
pub trait ManagedKey: View<V = Seq<u8>> {
    /// Derives the public half of this key.
    fn get_public_key(&self) -> (r: PublicKey)
        requires
            self@.len() == KEY_LEN,
        ensures
            r.wf(),
            r@ == pub_of(self@),
    ;

    /// Exposes the private half of this key.
    fn get_keypair(&self) -> (r: &Key)
        ensures
            r@ == self@,
    ;
}

/// The long-lived identity key of a user: one per user, generated once.
#[derive(Debug)]
pub struct IdentityKey {
    key: Key,
}

impl View for IdentityKey {
    type V = Seq<u8>;

    closed spec fn view(&self) -> Seq<u8> {
        self.key@
    }
}

impl IdentityKey {
    pub open spec fn wf(&self) -> bool {
        self@.len() == KEY_LEN
    }

    /// Generates a fresh identity key.
    pub fn generate() -> (r: Self)
        ensures
            r.wf(),
    {
        IdentityKey { key: Key::generate() }
    }

    /// Wraps an existing private key as an identity key.
    pub fn from_key(key: Key) -> (r: Self)
        ensures
            r@ == key@,
    {
        IdentityKey { key }
    }
}

impl ManagedKey for IdentityKey {
    fn get_public_key(&self) -> (r: PublicKey) {
        self.key.public_key()
    }

    fn get_keypair(&self) -> (r: &Key) {
        &self.key
    }
}

/// The medium-lived signed prekey: rotated periodically and published with a
/// signature over its public key produced by the identity key.
#[derive(Debug)]
pub struct SignedKey {
    key: Key,
}

impl View for SignedKey {
    type V = Seq<u8>;

    closed spec fn view(&self) -> Seq<u8> {
        self.key@
    }
}

impl SignedKey {
    pub open spec fn wf(&self) -> bool {
        self@.len() == KEY_LEN
    }

    /// Generates a fresh signed prekey.
    pub fn generate() -> (r: Self)
        ensures
            r.wf(),
    {
        SignedKey { key: Key::generate() }
    }

    /// Wraps an existing private key as a signed prekey.
    pub fn from_key(key: Key) -> (r: Self)
        ensures
            r@ == key@,
    {
        SignedKey { key }
    }
}

impl ManagedKey for SignedKey {
    fn get_public_key(&self) -> (r: PublicKey) {
        self.key.public_key()
    }

    fn get_keypair(&self) -> (r: &Key) {
        &self.key
    }
}

/// A single-use prekey, generated in id-sequenced batches and fetched by id
/// during responder handshakes.
#[derive(Debug)]
pub struct Onetime {
    key: Key,
    pub id: usize,
}

impl View for Onetime {
    type V = Seq<u8>;

    closed spec fn view(&self) -> Seq<u8> {
        self.key@
    }
}

impl Onetime {
    pub open spec fn wf(&self) -> bool {
        self@.len() == KEY_LEN
    }

    /// The sequential id this one-time prekey carries.
    pub closed spec fn id_spec(&self) -> usize {
        self.id
    }

    /// Generates a fresh one-time prekey with id 0.
    pub fn generate() -> (r: Self)
        ensures
            r.wf(),
            r.id_spec() == 0,
    {
        Onetime { key: Key::generate(), id: 0 }
    }

    /// Generates a fresh one-time prekey carrying the given sequential id.
    pub fn generate_id(id: usize) -> (r: Self)
        ensures
            r.wf(),
            r.id_spec() == id,
    {
        let mut s = Self::generate();
        s.id = id;
        s
    }

    /// Wraps an existing private key as a one-time prekey.
    pub fn from_key(key: Key, id: usize) -> (r: Self)
        ensures
            r@ == key@,
            r.id_spec() == id,
    {
        Onetime { key, id }
    }
}

impl ManagedKey for Onetime {
    fn get_public_key(&self) -> (r: PublicKey) {
        self.key.public_key()
    }

    fn get_keypair(&self) -> (r: &Key) {
        &self.key
    }
}

/// The private scalar of an optional one-time prekey.
pub open spec fn opt_onetime_priv(o: Option<&Onetime>) -> Option<Seq<u8>> {
    match o {
        Some(k) => Some(k@),
        None => None,
    }
}

/// The public half of an optional one-time prekey.
pub open spec fn opt_onetime_pub(o: Option<&Onetime>) -> Option<Seq<u8>> {
    match o {
        Some(k) => Some(pub_of(k@)),
        None => None,
    }
}

/// A published signed prekey together with the signature its identity key
/// produced over the prekey's public key.
pub struct Prekey(pub SignedKey, pub crate::signature::Signature);

/// Whether a stored message key sealed an incoming or an outgoing message.
#[derive(Debug, Clone, Copy, PartialEq, Eq, Structural)]
pub enum MessageKeyType {
    Receiving,
    Sending,
}

impl MessageKeyType {
    /// The direction tag for a flag that is true for received messages.
    pub fn from_receiving(receiving: bool) -> (r: Self)
        ensures
            r == (if receiving {
                MessageKeyType::Receiving
            } else {
                MessageKeyType::Sending
            }),
    {
        match receiving {
            true => MessageKeyType::Receiving,
            false => MessageKeyType::Sending,
        }
    }
}

} // verus!
