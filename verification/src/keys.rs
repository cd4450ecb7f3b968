use vstd::prelude::*;

use rand::RngCore;

use crate::bytes::{copy_bytes, zero_bytes};
use crate::KEY_LEN;

verus! {

// ---------------------------------------------------------------------------
// Names for the results of the Curve25519 primitives.
// ---------------------------------------------------------------------------

/// The X25519 public key that belongs to a 32-byte private scalar.
pub uninterp spec fn pub_of(private: Seq<u8>) -> Seq<u8>;

/// The X25519 shared secret computed from a 32-byte private scalar and a
/// 32-byte public key.
pub uninterp spec fn dh_shared(private: Seq<u8>, public: Seq<u8>) -> Seq<u8>;

/// The base-58 rendering of a byte string.
pub uninterp spec fn base58_of(bytes: Seq<u8>) -> Seq<char>;

// ---------------------------------------------------------------------------
// Trusted calls into the outside crates.
// ---------------------------------------------------------------------------

/// Relies on rand's `OsRng` (`RngCore::fill_bytes`): fills the buffer with
/// operating-system randomness. Nothing can be promised of the values.
#[verifier::external_body]
pub(crate) fn fill_random(buf: &mut Vec<u8>)
    ensures
        final(buf)@.len() == old(buf)@.len(),
{
    rand::rngs::OsRng.fill_bytes(buf.as_mut_slice());
}

/// Relies on `x25519_dalek::PublicKey::from(&StaticSecret)`: derives the
/// public key of a private scalar, a deterministic function of its 32 bytes.
#[verifier::external_body]
fn x25519_public(private: &Vec<u8>) -> (r: Vec<u8>)
    requires
        private@.len() == KEY_LEN,
    ensures
        r@.len() == KEY_LEN,
        r@ == pub_of(private@),
{
    let sk: [u8; 32] = private.as_slice().try_into().unwrap();
    let secret = x25519_dalek::StaticSecret::from(sk);
    x25519_dalek::PublicKey::from(&secret).to_bytes().to_vec()
}

/// Relies on `x25519_dalek::StaticSecret::diffie_hellman`: X25519 between our
/// private scalar and the peer's public key, a deterministic function of the
/// two inputs. The defining property of the Diffie-Hellman exchange is that
/// both parties compute the same secret when each uses the other's public
/// key, which the final clause states for the case that `public` was itself
/// derived from a private scalar.
#[verifier::external_body]
fn x25519_shared(private: &Vec<u8>, public: &Vec<u8>) -> (r: Vec<u8>)
    requires
        private@.len() == KEY_LEN,
        public@.len() == KEY_LEN,
    ensures
        r@.len() == KEY_LEN,
        r@ == dh_shared(private@, public@),
        forall|p: Seq<u8>| public@ == #[trigger] pub_of(p) ==> r@ == dh_shared(
            p,
            pub_of(private@),
        ),
{
    let sk: [u8; 32] = private.as_slice().try_into().unwrap();
    let pk: [u8; 32] = public.as_slice().try_into().unwrap();
    let secret = x25519_dalek::StaticSecret::from(sk);
    let shared = secret.diffie_hellman(&x25519_dalek::PublicKey::from(pk));
    shared.as_bytes().to_vec()
}

/// Relies on `bs58::encode`: renders bytes in base-58 (Bitcoin alphabet), a
/// deterministic function of the input bytes.
#[verifier::external_body]
pub fn to_base58(bytes: &Vec<u8>) -> (r: String)
    ensures
        r@ == base58_of(bytes@),
{
    bs58::encode(bytes.as_slice()).into_string()
}

// ---------------------------------------------------------------------------
// Key material held as plain bytes.
// ---------------------------------------------------------------------------

/// A Curve25519 private key, held as its 32 raw bytes. The curve library
/// clamps the scalar on use, so the raw bytes fully determine the key.
#[derive(Debug)]
pub struct Key {
    bytes: Vec<u8>,
}

impl View for Key {
    type V = Seq<u8>;

    closed spec fn view(&self) -> Seq<u8> {
        self.bytes@
    }
}

impl Key {
    /// A key is well formed when it holds exactly 32 bytes.
    pub open spec fn wf(&self) -> bool {
        self@.len() == KEY_LEN
    }

    /// Generates a fresh private key from operating-system randomness.
    pub fn generate() -> (r: Key)
        ensures
            r.wf(),
    {
        let mut buf = zero_bytes(KEY_LEN);
        fill_random(&mut buf);
        Key { bytes: buf }
    }

    /// Wraps 32 raw bytes as a private key.
    pub fn from_bytes(bytes: Vec<u8>) -> (r: Key)
        requires
            bytes@.len() == KEY_LEN,
        ensures
            r@ == bytes@,
    {
        Key { bytes }
    }

    /// Returns a copy of the raw private bytes.
    pub fn to_bytes(&self) -> (r: Vec<u8>)
        ensures
            r@ == self@,
    {
        copy_bytes(&self.bytes)
    }

    /// Returns an identical private key.
    pub fn duplicate(&self) -> (r: Key)
        ensures
            r@ == self@,
    {
        Key { bytes: copy_bytes(&self.bytes) }
    }

    /// Derives the public key of this private key.
    pub fn public_key(&self) -> (r: PublicKey)
        requires
            self.wf(),
        ensures
            r.wf(),
            r@ == pub_of(self@),
    {
        PublicKey { bytes: x25519_public(&self.bytes) }
    }

    /// Computes the X25519 shared secret with the peer's public key. When the
    /// peer's key was derived from a private scalar `p`, the result equals
    /// what the peer computes from `p` and our public key.
    pub fn diffie_hellman(&self, their_public: &PublicKey) -> (r: Vec<u8>)
        requires
            self.wf(),
            their_public.wf(),
        ensures
            r@.len() == KEY_LEN,
            r@ == dh_shared(self@, their_public@),
            forall|p: Seq<u8>| their_public@ == #[trigger] pub_of(p) ==> r@ == dh_shared(
                p,
                pub_of(self@),
            ),
    {
        let r = x25519_shared(&self.bytes, &their_public.bytes);
        r
    }
}

/// Generates a fresh ephemeral private key from operating-system randomness.
pub fn generate_ephemeral() -> (r: Key)
    ensures
        r.wf(),
{
    Key::generate()
}

/// A Curve25519 public key, held as its 32 raw bytes.
#[derive(Debug, Clone)]
pub struct PublicKey {
    bytes: Vec<u8>,
}

impl View for PublicKey {
    type V = Seq<u8>;

    closed spec fn view(&self) -> Seq<u8> {
        self.bytes@
    }
}

impl PublicKey {
    /// A public key is well formed when it holds exactly 32 bytes.
    pub open spec fn wf(&self) -> bool {
        self@.len() == KEY_LEN
    }

    /// Wraps 32 raw bytes as a public key.
    pub fn from_bytes(bytes: Vec<u8>) -> (r: PublicKey)
        requires
            bytes@.len() == KEY_LEN,
        ensures
            r@ == bytes@,
    {
        PublicKey { bytes }
    }

    /// Returns a copy of the raw public bytes.
    pub fn to_bytes(&self) -> (r: Vec<u8>)
        ensures
            r@ == self@,
    {
        copy_bytes(&self.bytes)
    }

    /// Returns an identical public key.
    pub fn duplicate(&self) -> (r: PublicKey)
        ensures
            r@ == self@,
    {
        PublicKey { bytes: copy_bytes(&self.bytes) }
    }
}

impl PartialEq for PublicKey {
    fn eq(&self, other: &PublicKey) -> (r: bool) {
        crate::bytes::bytes_eq(&self.bytes, &other.bytes)
    }
}

impl vstd::std_specs::cmp::PartialEqSpecImpl for PublicKey {
    open spec fn obeys_eq_spec() -> bool {
        true
    }

    open spec fn eq_spec(&self, other: &PublicKey) -> bool {
        self@ == other@
    }
}

} // verus!
