use vstd::prelude::*;

use curve25519_dalek::edwards::{CompressedEdwardsY, EdwardsPoint};
use curve25519_dalek::montgomery::MontgomeryPoint;
use curve25519_dalek::scalar::{clamp_integer, Scalar};
use sha2::{Digest, Sha512};
use subtle::ConstantTimeEq;

use crate::bytes::{append_bytes, copy_bytes, sub_bytes, zero_bytes};
use crate::keybundle::{ManagedKey, SignedKey};
use crate::keys::{fill_random, pub_of, Key, PublicKey};
use crate::KEY_LEN;

verus! {

/// An XEdDSA signature: the compressed commitment point R followed by the
/// scalar s, with the public key's Edwards sign bit in the top bit of the
/// last byte.
pub type Signature = Vec<u8>;

// ---------------------------------------------------------------------------
// Names for the results of the curve and hash primitives.
// ---------------------------------------------------------------------------

/// The compressed Edwards public point of a Curve25519 private scalar: the
/// clamped scalar times the Ed25519 basepoint.
pub uninterp spec fn ed_pub_of(secret: Seq<u8>) -> Seq<u8>;

/// The canonical scalar obtained by reducing the SHA-512 digest of `input`
/// modulo the group order.
pub uninterp spec fn sha512_scalar(input: Seq<u8>) -> Seq<u8>;

/// The compressed Edwards point `s * B`, for the Ed25519 basepoint `B`.
pub uninterp spec fn mul_base(s: Seq<u8>) -> Seq<u8>;

/// The product of a canonical scalar and a clamped private scalar, mod the
/// group order.
pub uninterp spec fn sc_mul_clamped(h: Seq<u8>, secret: Seq<u8>) -> Seq<u8>;

/// The sum of two scalars, mod the group order.
pub uninterp spec fn sc_add(a: Seq<u8>, b: Seq<u8>) -> Seq<u8>;

/// The compressed Edwards point with the given sign bit whose Montgomery
/// u-coordinate is `m`, or `None` when `m` does not lie on the curve.
pub uninterp spec fn edwards_of_mont(m: Seq<u8>, sign: u8) -> Option<Seq<u8>>;

/// The compressed Edwards point `h * (-A) + s * B`, for a valid compressed
/// point `A`.
pub uninterp spec fn neg_double_mul_base(h: Seq<u8>, a: Seq<u8>, s: Seq<u8>) -> Seq<u8>;

// ---------------------------------------------------------------------------
// Trusted calls into curve25519_dalek, sha2 and subtle.
// ---------------------------------------------------------------------------

/// Relies on `EdwardsPoint::mul_base_clamped` and `compress`: derives the
/// Edwards-form public point of a private scalar; a deterministic function of
/// its 32 bytes.
#[verifier::external_body]
fn ed_public_key(secret: &Vec<u8>) -> (r: Vec<u8>)
    requires
        secret@.len() == KEY_LEN,
    ensures
        r@.len() == KEY_LEN,
        r@ == ed_pub_of(secret@),
{
    let b: [u8; 32] = secret.as_slice().try_into().unwrap();
    EdwardsPoint::mul_base_clamped(b).compress().to_bytes().to_vec()
}

/// Relies on sha2's `Sha512` and `Scalar::from_hash`: hashes the input with
/// SHA-512 and reduces the digest to a canonical scalar; a deterministic
/// function of the input bytes.
#[verifier::external_body]
fn scalar_from_sha512(input: &Vec<u8>) -> (r: Vec<u8>)
    ensures
        r@.len() == KEY_LEN,
        r@ == sha512_scalar(input@),
{
    let mut hash = Sha512::new();
    hash.update(input.as_slice());
    Scalar::from_hash(hash).to_bytes().to_vec()
}

/// Relies on `EdwardsPoint::mul_base` and `compress`: the commitment point
/// `s * B`, compressed; a deterministic function of the scalar bytes. The
/// group has order l, so reducing the bytes mod l first leaves the point
/// unchanged.
#[verifier::external_body]
fn scalar_mul_base(s: &Vec<u8>) -> (r: Vec<u8>)
    requires
        s@.len() == KEY_LEN,
    ensures
        r@.len() == KEY_LEN,
        r@ == mul_base(s@),
{
    let b: [u8; 32] = s.as_slice().try_into().unwrap();
    let scalar = Scalar::from_bytes_mod_order(b);
    EdwardsPoint::mul_base(&scalar).compress().to_bytes().to_vec()
}

/// Relies on curve25519_dalek's scalar multiplication: the challenge scalar
/// times the clamped private scalar, mod the group order.
#[verifier::external_body]
fn scalar_mul_clamped(h: &Vec<u8>, secret: &Vec<u8>) -> (r: Vec<u8>)
    requires
        h@.len() == KEY_LEN,
        secret@.len() == KEY_LEN,
    ensures
        r@.len() == KEY_LEN,
        r@ == sc_mul_clamped(h@, secret@),
{
    let hb: [u8; 32] = h.as_slice().try_into().unwrap();
    let sb: [u8; 32] = secret.as_slice().try_into().unwrap();
    let a = Scalar::from_bytes_mod_order(clamp_integer(sb));
    (Scalar::from_bytes_mod_order(hb) * a).to_bytes().to_vec()
}

/// Relies on curve25519_dalek's scalar addition mod the group order.
#[verifier::external_body]
fn scalar_add(a: &Vec<u8>, b: &Vec<u8>) -> (r: Vec<u8>)
    requires
        a@.len() == KEY_LEN,
        b@.len() == KEY_LEN,
    ensures
        r@.len() == KEY_LEN,
        r@ == sc_add(a@, b@),
{
    let ab: [u8; 32] = a.as_slice().try_into().unwrap();
    let bb: [u8; 32] = b.as_slice().try_into().unwrap();
    (Scalar::from_bytes_mod_order(ab) + Scalar::from_bytes_mod_order(bb)).to_bytes().to_vec()
}

/// Relies on `MontgomeryPoint::to_edwards`: reconstructs the Edwards point
/// with the given sign bit from a Montgomery public key, or fails when the
/// bytes lie on the curve's twist; deterministic in its two inputs.
#[verifier::external_body]
fn mont_to_edwards(m: &Vec<u8>, sign: u8) -> (r: Option<Vec<u8>>)
    requires
        m@.len() == KEY_LEN,
        sign == 0 || sign == 1,
    ensures
        r matches Some(v) ==> edwards_of_mont(m@, sign) == Some(v@) && v@.len() == KEY_LEN,
        r is None ==> edwards_of_mont(m@, sign) is None,
{
    let b: [u8; 32] = m.as_slice().try_into().unwrap();
    match MontgomeryPoint(b).to_edwards(sign) {
        Some(p) => Some(p.compress().to_bytes().to_vec()),
        None => None,
    }
}

/// Relies on `EdwardsPoint::vartime_double_scalar_mul_basepoint`, applied to
/// the negated point: computes `h * (-A) + s * B` and compresses the result;
/// a deterministic function of the three byte strings. Decompression cannot
/// fail, because `A` is required to be the compression of a curve point.
#[verifier::external_body]
fn double_mul_base_neg(h: &Vec<u8>, cap_a: &Vec<u8>, s: &Vec<u8>) -> (r: Vec<u8>)
    requires
        h@.len() == KEY_LEN,
        s@.len() == KEY_LEN,
        exists|m: Seq<u8>, sign: u8| #[trigger] edwards_of_mont(m, sign) == Some(cap_a@),
    ensures
        r@.len() == KEY_LEN,
        r@ == neg_double_mul_base(h@, cap_a@, s@),
{
    let ab: [u8; 32] = cap_a.as_slice().try_into().unwrap();
    let point = CompressedEdwardsY(ab).decompress().expect("compressed curve point");
    let hb: [u8; 32] = h.as_slice().try_into().unwrap();
    let sb: [u8; 32] = s.as_slice().try_into().unwrap();
    let check = EdwardsPoint::vartime_double_scalar_mul_basepoint(
        &Scalar::from_bytes_mod_order(hb),
        &(-point),
        &Scalar::from_bytes_mod_order(sb),
    );
    check.compress().to_bytes().to_vec()
}

/// Relies on subtle's `ConstantTimeEq` for byte slices: compares in constant
/// time (short-circuiting only on length), returning exactly whether the two
/// byte strings are equal.
#[verifier::external_body]
fn ct_eq_bytes(a: &Vec<u8>, b: &Vec<u8>) -> (r: bool)
    ensures
        r == (a@ == b@),
{
    a.as_slice().ct_eq(b.as_slice()).into()
}

// ---------------------------------------------------------------------------
// The XEdDSA-style signature scheme.
// ---------------------------------------------------------------------------

/// The fixed domain-separation prefix of the commitment hash: 0xFE followed
/// by 31 bytes of 0xFF.
pub open spec fn sign_prefix() -> Seq<u8> {
    seq![0xFEu8] + Seq::new(31, |i: int| 0xFFu8)
}

/// Returns the domain-separation prefix of the commitment hash.
fn sign_prefix_bytes() -> (r: Vec<u8>)
    ensures
        r@ == sign_prefix(),
{
    let mut out: Vec<u8> = Vec::new();
    out.push(0xFE);
    let mut i: usize = 1;
    while i < 32
        invariant
            1 <= i <= 32,
            out@.len() == i,
            out@[0] == 0xFE,
            forall|j: int| 1 <= j < i ==> out@[j] == 0xFF,
        decreases 32 - i,
    {
        out.push(0xFF);
        i = i + 1;
    }
    proof {
        assert(out@ =~= sign_prefix());
    }
    out
}

/// The signature that `calculate_signature` produces: the commitment point
/// `R = r*B` for the scalar `r` reduced from the domain-separated commitment
/// hash, followed by `s = h*a + r` for the challenge scalar `h`, with the
/// public key's Edwards sign bit overwriting the top bit of the last byte.
pub open spec fn sign_spec(secret: Seq<u8>, random: Seq<u8>, msg: Seq<u8>) -> Seq<u8> {
    let ed_pub = ed_pub_of(secret);
    let sign_bit = ed_pub[31] & 0x80;
    let r_sc = sha512_scalar(sign_prefix() + secret + msg + random);
    let cap_r = mul_base(r_sc);
    let h = sha512_scalar(cap_r + ed_pub + msg);
    let s = sc_add(sc_mul_clamped(h, secret), r_sc);
    cap_r + s.update(31, (s[31] & 0x7F) | sign_bit)
}

/// Signs `message` with the private scalar, using the given 64 bytes of
/// fresh randomness for the commitment. The two hash inputs are built in the
/// fixed wire order: prefix, private scalar, message, randomness for the
/// commitment hash; and R, Edwards public key, message for the challenge.
pub fn calculate_signature(secret: &Key, random: &Vec<u8>, message: &Vec<u8>) -> (r: Signature)
    requires
        secret.wf(),
        random@.len() == 64,
    ensures
        r@.len() == 64,
        r@ == sign_spec(secret@, random@, message@),
{
    let secret_bytes = secret.to_bytes();
    let ed_pub = ed_public_key(&secret_bytes);
    let sign_bit = ed_pub[31] & 0x80;
    let mut hash1 = sign_prefix_bytes();
    append_bytes(&mut hash1, &secret_bytes);
    append_bytes(&mut hash1, message);
    append_bytes(&mut hash1, random);
    proof {
        assert(hash1@ =~= sign_prefix() + secret@ + message@ + random@);
    }
    let r_sc = scalar_from_sha512(&hash1);
    let cap_r = scalar_mul_base(&r_sc);
    let mut hash2 = copy_bytes(&cap_r);
    append_bytes(&mut hash2, &ed_pub);
    append_bytes(&mut hash2, message);
    proof {
        assert(hash2@ =~= mul_base(sha512_scalar(sign_prefix() + secret@ + message@ + random@))
            + ed_pub_of(secret@) + message@);
    }
    let h = scalar_from_sha512(&hash2);
    let ha = scalar_mul_clamped(&h, &secret_bytes);
    let s = scalar_add(&ha, &r_sc);
    let mut result = copy_bytes(&cap_r);
    let s_head = sub_bytes(&s, 0, 31);
    append_bytes(&mut result, &s_head);
    result.push((s[31] & 0x7F) | sign_bit);
    proof {
        assert(result@ =~= sign_spec(secret@, random@, message@));
    }
    result
}

/// What `verify_signature` checks: the Edwards point is reconstructed from
/// the Montgomery public key using the sign bit stored in the signature, the
/// scalar `s` is unmasked and rejected when its top three bits are set, the
/// challenge is recomputed, and `h*(-A) + s*B` must equal the commitment `R`.
pub open spec fn verify_spec(public_key: Seq<u8>, msg: Seq<u8>, sig: Seq<u8>) -> bool {
    match edwards_of_mont(public_key, (sig[63] & 0x80) >> 7) {
        None => false,
        Some(cap_a) => {
            if ((sig[63] & 0x7F) & 0xE0) != 0 {
                false
            } else {
                let cap_r = sig.subrange(0, 32);
                let s = sig.subrange(32, 64).update(31, sig[63] & 0x7F);
                let h = sha512_scalar(cap_r + cap_a + msg);
                neg_double_mul_base(h, cap_a, s) == cap_r
            }
        },
    }
}

/// Verifies an XEdDSA signature over `message` for a Curve25519 public key.
/// The final point comparison runs in constant time; the result never
/// distinguishes why verification failed.
pub fn verify_signature(their_public_key: &PublicKey, message: &Vec<u8>, signature: &Signature) -> (r:
    bool)
    requires
        their_public_key.wf(),
        signature@.len() == 64,
    ensures
        r == verify_spec(their_public_key@, message@, signature@),
{
    let last = signature[63];
    let sign = (last & 0x80) >> 7;
    proof {
        assert(((last & 0x80) >> 7) == 0 || ((last & 0x80) >> 7) == 1) by (bit_vector);
    }
    let pub_bytes = their_public_key.to_bytes();
    match mont_to_edwards(&pub_bytes, sign) {
        None => false,
        Some(cap_a) => {
            let s31 = last & 0x7F;
            if (s31 & 0xE0) != 0 {
                return false;
            }
            let cap_r = sub_bytes(signature, 0, 32);
            let mut s = sub_bytes(signature, 32, 63);
            s.push(s31);
            proof {
                assert(s@ =~= signature@.subrange(32, 64).update(31, signature@[63] & 0x7F));
            }
            let mut hin = copy_bytes(&cap_r);
            append_bytes(&mut hin, &cap_a);
            append_bytes(&mut hin, message);
            let h = scalar_from_sha512(&hin);
            let check = double_mul_base_neg(&h, &cap_a, &s);
            ct_eq_bytes(&check, &cap_r)
        },
    }
}

impl SignedKey {
    /// Signs this prekey's public key with the identity private key, drawing
    /// 64 bytes of fresh randomness for the commitment.
    pub fn signature(&self, secret: &Key) -> (r: Signature)
        requires
            self.wf(),
            secret.wf(),
        ensures
            r@.len() == 64,
            exists|rand: Seq<u8>|
                rand.len() == 64 && r@ == sign_spec(secret@, rand, pub_of(self@)),
    {
        let mut random = zero_bytes(64);
        fill_random(&mut random);
        let public = self.get_public_key();
        let public_bytes = public.to_bytes();
        calculate_signature(secret, &random, &public_bytes)
    }
}

} // verus!
