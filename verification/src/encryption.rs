use vstd::prelude::*;

use aes_gcm_siv::aead::{Aead, Payload};
use aes_gcm_siv::{Aes256GcmSiv, KeyInit, Nonce};

use crate::bytes::{append_bytes, copy_bytes, sub_bytes};
use crate::errors::SessionError;
use crate::KEY_LEN;

verus! {

// ---------------------------------------------------------------------------
// Names for the results of the KDF and AEAD primitives.
// ---------------------------------------------------------------------------

/// The 64-byte output of HKDF-SHA256 with no salt over the keying material
/// `ikm`, expanded under the context label `info`.
pub uninterp spec fn hkdf_okm(ikm: Seq<u8>, info: Seq<u8>) -> Seq<u8>;

/// The AES-256-GCM-SIV ciphertext (including its 16-byte tag) of `msg` under
/// `key` and `nonce`, bound to the associated data `aad`.
pub uninterp spec fn aead_seal(key: Seq<u8>, nonce: Seq<u8>, msg: Seq<u8>, aad: Seq<u8>) -> Seq<u8>;

/// The AES-256-GCM-SIV decryption of `ct` under `key` and `nonce` with
/// associated data `aad`: the plaintext, or `None` on any tag mismatch.
pub uninterp spec fn aead_open(key: Seq<u8>, nonce: Seq<u8>, ct: Seq<u8>, aad: Seq<u8>) -> Option<
    Seq<u8>,
>;

// ---------------------------------------------------------------------------
// The KDF: domain-separated HKDF-SHA256 expanded to 64 bytes.
// ---------------------------------------------------------------------------

/// The domain-separation byte prepended to all keying material.
pub open spec fn kdf_input(secrets: Seq<u8>) -> Seq<u8> {
    seq![0xFFu8] + secrets
}

/// The fixed context label (the ASCII bytes of the application name) under
/// which the KDF expands.
pub open spec fn kdf_info() -> Seq<u8> {
    seq![0x65u8, 0x6Eu8, 0x63u8, 0x68u8, 0x61u8, 0x74u8]
}

/// The full 64-byte KDF output for the given keying material.
pub open spec fn kdf_okm(secrets: Seq<u8>) -> Seq<u8> {
    hkdf_okm(kdf_input(secrets), kdf_info())
}

/// The first 32 bytes of the KDF output: the next root (chain) key.
pub open spec fn kdf_root(secrets: Seq<u8>) -> Seq<u8> {
    kdf_okm(secrets).subrange(0, KEY_LEN as int)
}

/// The last 32 bytes of the KDF output: the message key for this step.
pub open spec fn kdf_message(secrets: Seq<u8>) -> Seq<u8> {
    kdf_okm(secrets).subrange(KEY_LEN as int, 2 * KEY_LEN as int)
}

/// KDF determinism: identical input bytes always yield the identical
/// (root key, message key) pair.
pub proof fn lemma_kdf_deterministic(a: Seq<u8>, b: Seq<u8>)
    requires
        a == b,
    ensures
        kdf_root(a) == kdf_root(b),
        kdf_message(a) == kdf_message(b),
{
}

/// Relies on `hkdf::Hkdf::<Sha256>`: HKDF extract with no salt over `ikm`,
/// then a 64-byte expand under `info`; deterministic in its two inputs.
/// `expand` rejects only requests longer than 255 hash blocks, so a 64-byte
/// expansion always succeeds.
#[verifier::external_body]
fn hkdf_sha256_expand64(ikm: &Vec<u8>, info: &Vec<u8>) -> (r: Vec<u8>)
    ensures
        r@.len() == 64,
        r@ == hkdf_okm(ikm@, info@),
{
    let hk = hkdf::Hkdf::<sha2::Sha256>::new(None, ikm.as_slice());
    let mut okm = [0u8; 64];
    hk.expand(info.as_slice(), &mut okm).expect("HKDF expand failed");
    okm.to_vec()
}

/// The pair a KDF invocation yields: the next root key and the message key.
pub struct KdfOutput(pub Vec<u8>, pub Vec<u8>);

impl KdfOutput {
    /// Both halves of a KDF output are exactly 32 bytes.
    pub open spec fn wf(&self) -> bool {
        self.0@.len() == KEY_LEN && self.1@.len() == KEY_LEN
    }
}

/// Returns the context label bytes under which the KDF expands.
fn kdf_info_bytes() -> (r: Vec<u8>)
    ensures
        r@ == kdf_info(),
{
    let mut out: Vec<u8> = Vec::new();
    out.push(0x65);
    out.push(0x6E);
    out.push(0x63);
    out.push(0x68);
    out.push(0x61);
    out.push(0x74);
    proof {
        assert(out@ =~= kdf_info());
    }
    out
}

/// Expands keying material into a (root key, message key) pair: a
/// domain-separation byte is prepended, HKDF-SHA256 expands 64 bytes under
/// the fixed context label, and the output is split in two 32-byte halves.
pub fn kdf(secrets: Vec<u8>) -> (r: KdfOutput)
    ensures
        r.wf(),
        r.0@ == kdf_root(secrets@),
        r.1@ == kdf_message(secrets@),
{
    let mut message: Vec<u8> = Vec::new();
    message.push(0xFF);
    append_bytes(&mut message, &secrets);
    proof {
        assert(message@ =~= kdf_input(secrets@));
    }
    let info = kdf_info_bytes();
    let okm = hkdf_sha256_expand64(&message, &info);
    let root = sub_bytes(&okm, 0, KEY_LEN);
    let other = sub_bytes(&okm, KEY_LEN, 2 * KEY_LEN);
    KdfOutput(root, other)
}

// ---------------------------------------------------------------------------
// AEAD sealing with keys and nonces derived from a message key.
// ---------------------------------------------------------------------------

/// AES-GCM-SIV accepts plaintext and associated data up to 2^36 bytes.
pub open spec fn aead_len_ok(n: nat) -> bool {
    n < 0x1000000000
}

/// The cipher key under which a message key seals: the first KDF half of the
/// re-expanded message key.
pub open spec fn cipher_key_of(message_key: Seq<u8>) -> Seq<u8> {
    kdf_root(message_key)
}

/// The deterministic nonce under which a message key seals: the first 12
/// bytes of the second KDF half. Safe because the ratchet uses each message
/// key exactly once.
pub open spec fn nonce_of(message_key: Seq<u8>) -> Seq<u8> {
    kdf_message(message_key).subrange(0, 12)
}

/// The ciphertext that `encrypt` produces for a message key, plaintext and
/// associated data.
pub open spec fn sealed(message_key: Seq<u8>, msg: Seq<u8>, ad: Seq<u8>) -> Seq<u8> {
    aead_seal(cipher_key_of(message_key), nonce_of(message_key), msg, ad)
}

/// The plaintext that `decrypt` recovers for a message key, ciphertext and
/// associated data, or `None` when authentication fails.
pub open spec fn opened(message_key: Seq<u8>, ct: Seq<u8>, ad: Seq<u8>) -> Option<Seq<u8>> {
    aead_open(cipher_key_of(message_key), nonce_of(message_key), ct, ad)
}

/// Relies on `aes_gcm_siv::Aes256GcmSiv::encrypt`: AES-256-GCM-SIV is a
/// deterministic AEAD, so the ciphertext is a function of key, nonce,
/// plaintext and associated data; it is the plaintext plus a 16-byte tag, and
/// decrypting it under the same parameters returns the plaintext. Encryption
/// fails only beyond the cipher's 2^36-byte limits, which the caller rules
/// out.
#[verifier::external_body]
fn aes_gcm_siv_seal(key: &Vec<u8>, nonce: &Vec<u8>, msg: &Vec<u8>, aad: &Vec<u8>) -> (r: Vec<u8>)
    requires
        key@.len() == KEY_LEN,
        nonce@.len() == 12,
        aead_len_ok(msg@.len()),
        aead_len_ok(aad@.len()),
    ensures
        r@ == aead_seal(key@, nonce@, msg@, aad@),
        r@.len() == msg@.len() + 16,
        aead_open(key@, nonce@, r@, aad@) == Some(msg@),
{
    let cipher = Aes256GcmSiv::new_from_slice(key.as_slice()).unwrap();
    let payload = Payload { msg: msg.as_slice(), aad: aad.as_slice() };
    cipher.encrypt(Nonce::from_slice(nonce.as_slice()), payload).expect("AEAD seal failed")
}

/// Relies on `aes_gcm_siv::Aes256GcmSiv::decrypt`: returns the plaintext
/// exactly when key, nonce, ciphertext and associated data match a sealing
/// call, and an error on any mismatch; deterministic in its four inputs.
#[verifier::external_body]
fn aes_gcm_siv_open(key: &Vec<u8>, nonce: &Vec<u8>, ct: &Vec<u8>, aad: &Vec<u8>) -> (r: Option<
    Vec<u8>,
>)
    requires
        key@.len() == KEY_LEN,
        nonce@.len() == 12,
    ensures
        r matches Some(p) ==> aead_open(key@, nonce@, ct@, aad@) == Some(p@),
        r is None ==> aead_open(key@, nonce@, ct@, aad@) is None,
{
    let cipher = Aes256GcmSiv::new_from_slice(key.as_slice()).unwrap();
    let payload = Payload { msg: ct.as_slice(), aad: aad.as_slice() };
    cipher.decrypt(Nonce::from_slice(nonce.as_slice()), payload).ok()
}

/// Seals a plaintext under a one-time message key: the message key is
/// re-expanded through the KDF into a cipher key and a deterministic nonce,
/// and the plaintext is sealed with the associated data bound to the tag.
pub fn encrypt(key: &Vec<u8>, message: &Vec<u8>, ad: &Vec<u8>) -> (r: Vec<u8>)
    requires
        key@.len() == KEY_LEN,
        aead_len_ok(message@.len()),
        aead_len_ok(ad@.len()),
    ensures
        r@ == sealed(key@, message@, ad@),
        r@.len() == message@.len() + 16,
        opened(key@, r@, ad@) == Some(message@),
{
    let out = kdf(copy_bytes(key));
    let iv = sub_bytes(&out.1, 0, 12);
    aes_gcm_siv_seal(&out.0, &iv, message, ad)
}

/// Opens a ciphertext under a one-time message key, deriving the cipher key
/// and nonce exactly as `encrypt` does. Fails closed: on any tampering of the
/// ciphertext or the associated data, or on a wrong key, no plaintext is
/// released and the one `AuthenticationFailure` error is returned.
pub fn decrypt(key: &Vec<u8>, message: &Vec<u8>, ad: &Vec<u8>) -> (r: Result<
    Vec<u8>,
    SessionError,
>)
    requires
        key@.len() == KEY_LEN,
    ensures
        r matches Ok(p) ==> opened(key@, message@, ad@) == Some(p@),
        r is Err <==> opened(key@, message@, ad@) is None,
        r matches Err(e) ==> e == SessionError::AuthenticationFailure,
{
    let out = kdf(copy_bytes(key));
    let iv = sub_bytes(&out.1, 0, 12);
    match aes_gcm_siv_open(&out.0, &iv, message, ad) {
        Some(plaintext) => Ok(plaintext),
        None => Err(SessionError::AuthenticationFailure),
    }
}

} // verus!
