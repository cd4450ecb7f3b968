use vstd::prelude::*;

use crate::bytes::{append_bytes, bytes_eq, copy_bytes, zero_bytes};
use crate::encryption::{kdf, kdf_message, kdf_root};
use crate::keybundle::{opt_onetime_priv, opt_onetime_pub, IdentityKey, ManagedKey, Onetime, SignedKey};
use crate::keys::{dh_shared, pub_of, Key, PublicKey};
use crate::message::{initial_opt_eq, InitialData};
use crate::KEY_LEN;

verus! {

/// The all-zero chain key a chain starts from before it is seeded.
pub open spec fn zero_key() -> Seq<u8> {
    Seq::new(KEY_LEN as nat, |i: int| 0u8)
}

/// The byte view of an optional public key.
pub open spec fn opt_pub_view(o: Option<&PublicKey>) -> Option<Seq<u8>> {
    match o {
        Some(k) => Some(k@),
        None => None,
    }
}

/// Well-formedness of an optional public key.
pub open spec fn opt_pub_wf(o: Option<&PublicKey>) -> bool {
    match o {
        Some(k) => k.wf(),
        None => true,
    }
}

/// A symmetric key-ratchet: a strictly increasing step counter and the
/// current chain key, which is replaced on every step so that no previous
/// value remains reachable.
#[derive(Debug)]
pub struct Chain {
    pub id: u32,
    pub input_key: Vec<u8>,
}

impl Chain {
    pub open spec fn wf(&self) -> bool {
        self.input_key@.len() == KEY_LEN
    }

    /// The keying material one step feeds to the KDF: the optional fresh DH
    /// output, followed by the current chain key.
    pub open spec fn step_material(key: Seq<u8>, dh: Option<Seq<u8>>) -> Seq<u8> {
        match dh {
            Some(d) => d + key,
            None => key,
        }
    }

    /// The spec-level view of an optional DH input.
    pub open spec fn opt_dh_view(dh: Option<&Vec<u8>>) -> Option<Seq<u8>> {
        match dh {
            Some(d) => Some(d@),
            None => None,
        }
    }

    /// One ratchet step: feeds the optional DH output and the current chain
    /// key through the KDF, atomically replaces the chain key with the first
    /// output half, increments the counter, and returns the second half as
    /// this step's message key.
    pub fn step(&mut self, dh_input: Option<&Vec<u8>>) -> (r: Vec<u8>)
        requires
            old(self).wf(),
            old(self).id < u32::MAX,
        ensures
            final(self).wf(),
            final(self).id == old(self).id + 1,
            final(self).input_key@ == kdf_root(
                Chain::step_material(old(self).input_key@, Chain::opt_dh_view(dh_input)),
            ),
            r@ == kdf_message(
                Chain::step_material(old(self).input_key@, Chain::opt_dh_view(dh_input)),
            ),
            r@.len() == KEY_LEN,
    {
        let mut vec: Vec<u8> = Vec::new();
        if let Some(dh) = dh_input {
            append_bytes(&mut vec, dh);
        }
        append_bytes(&mut vec, &self.input_key);
        proof {
            assert(vec@ =~= Chain::step_material(self.input_key@, Chain::opt_dh_view(dh_input)));
        }
        let output = kdf(vec);
        self.input_key = output.0;
        self.id = self.id + 1;
        output.1
    }

    /// Replaces the chain key directly, without stepping the counter: used
    /// when the root chain hands a freshly derived seed to the sending or
    /// receiving chain.
    pub fn set_key(&mut self, key: Vec<u8>)
        requires
            key@.len() == KEY_LEN,
        ensures
            final(self).wf(),
            final(self).id == old(self).id,
            final(self).input_key@ == key@,
    {
        self.input_key = key;
    }

}

/// Value equality of two chains.
pub open spec fn chain_eq(a: Chain, b: Chain) -> bool {
    a.id == b.id && a.input_key@ == b.input_key@
}

impl Default for Chain {
    /// A chain before seeding: counter 0 and the all-zero key.
    fn default() -> (r: Self)
        ensures
            r.wf(),
            r.id == 0,
            r.input_key@ == zero_key(),
    {
        Chain { id: 0, input_key: zero_bytes(KEY_LEN) }
    }
}

impl PartialEq for Chain {
    fn eq(&self, other: &Chain) -> (r: bool) {
        self.id == other.id && bytes_eq(&self.input_key, &other.input_key)
    }
}

impl vstd::std_specs::cmp::PartialEqSpecImpl for Chain {
    open spec fn obeys_eq_spec() -> bool {
        true
    }

    open spec fn eq_spec(&self, other: &Chain) -> bool {
        chain_eq(*self, *other)
    }
}

/// The Diffie-Hellman ratchet: our current ephemeral key pair and the peer's
/// latest ratchet public key.
#[derive(Debug)]
pub struct DHRachet {
    pub our_keypair: Key,
    pub their_public: PublicKey,
}

/// Value equality of two DH ratchets.
pub open spec fn rachet_eq(a: DHRachet, b: DHRachet) -> bool {
    a.our_keypair@ == b.our_keypair@ && a.their_public@ == b.their_public@
}

impl DHRachet {
    pub open spec fn wf(&self) -> bool {
        self.our_keypair.wf() && self.their_public.wf()
    }

    /// A ratchet seeded with the peer's key and a fresh ephemeral key pair.
    pub fn new(their_public: PublicKey) -> (r: Self)
        requires
            their_public.wf(),
        ensures
            r.wf(),
            r.their_public@ == their_public@,
    {
        DHRachet { our_keypair: Key::generate(), their_public }
    }

    /// ECDH between our current private key and the peer's current key.
    pub fn calculate_dh(&self) -> (r: Vec<u8>)
        requires
            self.wf(),
        ensures
            r@.len() == KEY_LEN,
            r@ == dh_shared(self.our_keypair@, self.their_public@),
            forall|p: Seq<u8>| self.their_public@ == #[trigger] pub_of(p) ==> r@ == dh_shared(
                p,
                pub_of(self.our_keypair@),
            ),
    {
        self.our_keypair.diffie_hellman(&self.their_public)
    }

    /// One ratchet turn: installs the peer's new key, computes the DH
    /// contribution with the private key that was public at the time the peer
    /// encrypted (the old one), and only then regenerates our key pair.
    pub fn step(&mut self, new_public_key: PublicKey) -> (r: Vec<u8>)
        requires
            old(self).wf(),
            new_public_key.wf(),
        ensures
            final(self).wf(),
            final(self).their_public@ == new_public_key@,
            r@.len() == KEY_LEN,
            r@ == dh_shared(old(self).our_keypair@, new_public_key@),
            forall|p: Seq<u8>| new_public_key@ == #[trigger] pub_of(p) ==> r@ == dh_shared(
                p,
                pub_of(old(self).our_keypair@),
            ),
    {
        self.their_public = new_public_key;
        let dh = self.calculate_dh();
        self.our_keypair = Key::generate();
        dh
    }
}

/// The per-chat session state: the root chain, one chain per direction, the
/// DH ratchet, the pending handshake bootstrap payload for the first outgoing
/// message, and the sending-chain counter at the last ratchet turn.
#[derive(Debug)]
pub struct ChatState {
    pub receiver_used_keys: Option<InitialData>,
    pub root_chain: Chain,
    pub sender_chain: Chain,
    pub receiver_chain: Chain,
    pub rachet: DHRachet,
    pub last_previous_sender_id: u32,
}

impl ChatState {
    pub open spec fn wf(&self) -> bool {
        &&& self.root_chain.wf()
        &&& self.sender_chain.wf()
        &&& self.receiver_chain.wf()
        &&& self.rachet.wf()
        &&& match self.receiver_used_keys {
            Some(i) => i.wf(),
            None => true,
        }
    }

    /// Whether presenting ratchet key `k` makes this state perform a full
    /// DH-ratchet turn: the key is new, or no turn has ever happened.
    pub open spec fn turn_occurs(self, k: Seq<u8>) -> bool {
        k != self.rachet.their_public@ || self.root_chain.id == 0
    }

    /// The keying material of the receiving-side root step of a turn on `k`.
    pub open spec fn turn_recv_material(self, k: Seq<u8>) -> Seq<u8> {
        Chain::step_material(
            self.root_chain.input_key@,
            Some(dh_shared(self.rachet.our_keypair@, k)),
        )
    }

    /// The receiving-chain seed a turn on `k` installs.
    pub open spec fn turn_recv_seed(self, k: Seq<u8>) -> Seq<u8> {
        kdf_message(self.turn_recv_material(k))
    }

    /// The root key after the receiving-side root step of a turn on `k`.
    pub open spec fn turn_root1(self, k: Seq<u8>) -> Seq<u8> {
        kdf_root(self.turn_recv_material(k))
    }

    /// The keying material of the sending-side root step of a turn on `k`,
    /// after our key pair was regenerated to `g`.
    pub open spec fn turn_send_material(self, k: Seq<u8>, g: Seq<u8>) -> Seq<u8> {
        Chain::step_material(self.turn_root1(k), Some(dh_shared(g, k)))
    }

    /// The X3DH keying material on the initiator side, in the fixed wire
    /// order: identity against signed prekey, ephemeral against identity,
    /// ephemeral against signed prekey, and ephemeral against the one-time
    /// key when one was supplied.
    pub open spec fn dh_sender_material(
        ephemeral: Seq<u8>,
        identity: Seq<u8>,
        receiver_identity: Seq<u8>,
        receiver_prekey: Seq<u8>,
        receiver_onetime: Option<Seq<u8>>,
    ) -> Seq<u8> {
        dh_shared(identity, receiver_prekey) + dh_shared(ephemeral, receiver_identity) + dh_shared(
            ephemeral,
            receiver_prekey,
        ) + (match receiver_onetime {
            Some(o) => dh_shared(ephemeral, o),
            None => Seq::empty(),
        })
    }

    /// The X3DH keying material on the responder side: the same four
    /// contributions, each computed with the mirrored key pair.
    pub open spec fn dh_receiver_material(
        sender_ephemeral: Seq<u8>,
        identity: Seq<u8>,
        sender_identity: Seq<u8>,
        prekey: Seq<u8>,
        onetime: Option<Seq<u8>>,
    ) -> Seq<u8> {
        dh_shared(prekey, sender_identity) + dh_shared(identity, sender_ephemeral) + dh_shared(
            prekey,
            sender_ephemeral,
        ) + (match onetime {
            Some(o) => dh_shared(o, sender_ephemeral),
            None => Seq::empty(),
        })
    }

    /// Computes the responder's X3DH keying material. When the sender's
    /// ephemeral and identity public keys are the public halves of scalars
    /// `ae` and `ai`, the result equals byte for byte the initiator's
    /// material over our public keys: the X3DH handshake is symmetric.
    pub fn dh_receiver(
        sender_ephemeral: &PublicKey,
        identity_key: &Key,
        sender_identity: &PublicKey,
        prekey: &Key,
        onetime_key: Option<&Onetime>,
    ) -> (r: Vec<u8>)
        requires
            sender_ephemeral.wf(),
            identity_key.wf(),
            sender_identity.wf(),
            prekey.wf(),
            match onetime_key {
                Some(k) => k.wf(),
                None => true,
            },
        ensures
            r@ == ChatState::dh_receiver_material(
                sender_ephemeral@,
                identity_key@,
                sender_identity@,
                prekey@,
                opt_onetime_priv(onetime_key),
            ),
            forall|ae: Seq<u8>, ai: Seq<u8>|
                sender_ephemeral@ == #[trigger] pub_of(ae) && sender_identity@ == #[trigger] pub_of(
                    ai,
                ) ==> r@ == ChatState::dh_sender_material(
                    ae,
                    ai,
                    pub_of(identity_key@),
                    pub_of(prekey@),
                    opt_onetime_pub(onetime_key),
                ),
    {
        let d1 = prekey.diffie_hellman(sender_identity);
        let d2 = identity_key.diffie_hellman(sender_ephemeral);
        let d3 = prekey.diffie_hellman(sender_ephemeral);
        let mut vec: Vec<u8> = Vec::new();
        append_bytes(&mut vec, &d1);
        append_bytes(&mut vec, &d2);
        append_bytes(&mut vec, &d3);
        match onetime_key {
            Some(onetime) => {
                let d4 = onetime.get_keypair().diffie_hellman(sender_ephemeral);
                append_bytes(&mut vec, &d4);
                proof {
                    assert(vec@ =~= ChatState::dh_receiver_material(
                        sender_ephemeral@,
                        identity_key@,
                        sender_identity@,
                        prekey@,
                        opt_onetime_priv(onetime_key),
                    ));
                    assert forall|ae: Seq<u8>, ai: Seq<u8>|
                        sender_ephemeral@ == #[trigger] pub_of(ae) && sender_identity@
                            == #[trigger] pub_of(ai) implies vec@ == ChatState::dh_sender_material(
                        ae,
                        ai,
                        pub_of(identity_key@),
                        pub_of(prekey@),
                        opt_onetime_pub(onetime_key),
                    ) by {
                        assert(d1@ == dh_shared(ai, pub_of(prekey@)));
                        assert(d2@ == dh_shared(ae, pub_of(identity_key@)));
                        assert(d3@ == dh_shared(ae, pub_of(prekey@)));
                        assert(d4@ == dh_shared(ae, pub_of(onetime@)));
                        assert(vec@ =~= ChatState::dh_sender_material(
                            ae,
                            ai,
                            pub_of(identity_key@),
                            pub_of(prekey@),
                            opt_onetime_pub(onetime_key),
                        ));
                    }
                }
                vec
            },
            None => {
                proof {
                    assert(vec@ =~= ChatState::dh_receiver_material(
                        sender_ephemeral@,
                        identity_key@,
                        sender_identity@,
                        prekey@,
                        opt_onetime_priv(onetime_key),
                    ));
                    assert forall|ae: Seq<u8>, ai: Seq<u8>|
                        sender_ephemeral@ == #[trigger] pub_of(ae) && sender_identity@
                            == #[trigger] pub_of(ai) implies vec@ == ChatState::dh_sender_material(
                        ae,
                        ai,
                        pub_of(identity_key@),
                        pub_of(prekey@),
                        opt_onetime_pub(onetime_key),
                    ) by {
                        assert(d1@ == dh_shared(ai, pub_of(prekey@)));
                        assert(d2@ == dh_shared(ae, pub_of(identity_key@)));
                        assert(d3@ == dh_shared(ae, pub_of(prekey@)));
                        assert(vec@ =~= ChatState::dh_sender_material(
                            ae,
                            ai,
                            pub_of(identity_key@),
                            pub_of(prekey@),
                            opt_onetime_pub(onetime_key),
                        ));
                    }
                }
                vec
            },
        }
    }

    /// Computes the initiator's X3DH keying material, in the fixed wire
    /// order.
    pub fn dh_sender(
        ephemeral: &Key,
        identity_key: &Key,
        receiver_identity: &PublicKey,
        receiver_prekey: &PublicKey,
        receiver_onetime: Option<&PublicKey>,
    ) -> (r: Vec<u8>)
        requires
            ephemeral.wf(),
            identity_key.wf(),
            receiver_identity.wf(),
            receiver_prekey.wf(),
            opt_pub_wf(receiver_onetime),
        ensures
            r@ == ChatState::dh_sender_material(
                ephemeral@,
                identity_key@,
                receiver_identity@,
                receiver_prekey@,
                opt_pub_view(receiver_onetime),
            ),
    {
        let d1 = identity_key.diffie_hellman(receiver_prekey);
        let d2 = ephemeral.diffie_hellman(receiver_identity);
        let d3 = ephemeral.diffie_hellman(receiver_prekey);
        let mut vec: Vec<u8> = Vec::new();
        append_bytes(&mut vec, &d1);
        append_bytes(&mut vec, &d2);
        append_bytes(&mut vec, &d3);
        if let Some(onetime) = receiver_onetime {
            let d4 = ephemeral.diffie_hellman(onetime);
            append_bytes(&mut vec, &d4);
        }
        proof {
            assert(vec@ =~= ChatState::dh_sender_material(
                ephemeral@,
                identity_key@,
                receiver_identity@,
                receiver_prekey@,
                opt_pub_view(receiver_onetime),
            ));
        }
        vec
    }

    /// A session seeded from handshake keying material: the root chain is
    /// seeded with the KDF's first half, both direction chains are unseeded,
    /// and the ratchet pairs a fresh ephemeral key with the given peer key.
    pub fn new(initial_rachet_key: &PublicKey, initial_dh: Vec<u8>) -> (r: Self)
        requires
            initial_rachet_key.wf(),
        ensures
            r.wf(),
            r.root_chain.id == 0,
            r.root_chain.input_key@ == kdf_root(initial_dh@),
            r.sender_chain.id == 0,
            r.sender_chain.input_key@ == zero_key(),
            r.receiver_chain.id == 0,
            r.receiver_chain.input_key@ == zero_key(),
            r.rachet.their_public@ == initial_rachet_key@,
            r.receiver_used_keys is None,
            r.last_previous_sender_id == 0,
    {
        let output = kdf(initial_dh);
        ChatState {
            root_chain: Chain { id: 0, input_key: output.0 },
            rachet: DHRachet::new(initial_rachet_key.duplicate()),
            sender_chain: Default::default(),
            receiver_chain: Default::default(),
            receiver_used_keys: None,
            last_previous_sender_id: 0,
        }
    }

    /// What `new_sender` establishes: the root chain has stepped once with
    /// the ratchet's self-DH, and the sending chain is seeded with that
    /// step's message half, so the initiator has a ready outgoing key before
    /// any ratchet turn.
    pub open spec fn fresh_sender_state(r: ChatState, rachet_key: Seq<u8>, initial_dh: Seq<u8>) -> bool {
        &&& r.root_chain.id == 1
        &&& r.rachet.their_public@ == rachet_key
        &&& r.sender_chain.id == 0
        &&& r.receiver_chain.id == 0
        &&& r.receiver_chain.input_key@ == zero_key()
        &&& r.last_previous_sender_id == 0
        &&& {
            let material = Chain::step_material(
                kdf_root(initial_dh),
                Some(dh_shared(r.rachet.our_keypair@, rachet_key)),
            );
            r.root_chain.input_key@ == kdf_root(material) && r.sender_chain.input_key@
                == kdf_message(material)
        }
    }

    /// A session in the initiator role, with a first sending key derived
    /// immediately. When the peer ratchet key is the public half of a scalar
    /// `p`, the sending-chain seed equals what the peer derives from `p` and
    /// our ratchet public key.
    pub fn new_sender(initial_rachet_key: &PublicKey, initial_dh: Vec<u8>) -> (r: Self)
        requires
            initial_rachet_key.wf(),
        ensures
            r.wf(),
            ChatState::fresh_sender_state(r, initial_rachet_key@, initial_dh@),
            r.receiver_used_keys is None,
            forall|p: Seq<u8>| initial_rachet_key@ == #[trigger] pub_of(p)
                ==> r.sender_chain.input_key@ == kdf_message(
                Chain::step_material(
                    kdf_root(initial_dh@),
                    Some(dh_shared(p, pub_of(r.rachet.our_keypair@))),
                ),
            ),
    {
        let mut new_self = Self::new(initial_rachet_key, initial_dh);
        let dh = new_self.rachet.calculate_dh();
        let key = new_self.root_chain.step(Some(&dh));
        new_self.sender_chain.set_key(key);
        new_self
    }

    /// A session in the responder role: the ratchet's private half is our
    /// identity key (not a fresh ephemeral), so our ratchet public key is
    /// stable until we first send.
    pub fn new_receiver(our_identity: Key, initial_rachet_key: &PublicKey, initial_dh: Vec<u8>) -> (r:
        Self)
        requires
            our_identity.wf(),
            initial_rachet_key.wf(),
        ensures
            r.wf(),
            r.root_chain.id == 0,
            r.root_chain.input_key@ == kdf_root(initial_dh@),
            r.sender_chain.id == 0,
            r.sender_chain.input_key@ == zero_key(),
            r.receiver_chain.id == 0,
            r.receiver_chain.input_key@ == zero_key(),
            r.rachet.our_keypair@ == our_identity@,
            r.rachet.their_public@ == initial_rachet_key@,
            r.receiver_used_keys is None,
            r.last_previous_sender_id == 0,
    {
        let mut new_self = Self::new(initial_rachet_key, initial_dh);
        new_self.rachet.our_keypair = our_identity;
        new_self
    }

    /// A session in the initiator role of the X3DH handshake: the four DH
    /// contributions are computed in the fixed wire order and seed the root
    /// chain, a first sending key is derived immediately, and the bootstrap
    /// payload for the first outgoing message header is recorded.
    pub fn initial_sender(
        our_identity: IdentityKey,
        ephemeral: IdentityKey,
        receiver_identity: &PublicKey,
        receiver_prekey: &PublicKey,
        receiver_onetime: Option<&PublicKey>,
        prekey_id: u32,
        onetime_key_id: Option<u32>,
    ) -> (r: Self)
        requires
            our_identity.wf(),
            ephemeral.wf(),
            receiver_identity.wf(),
            receiver_prekey.wf(),
            opt_pub_wf(receiver_onetime),
        ensures
            r.wf(),
            ChatState::fresh_sender_state(
                r,
                receiver_identity@,
                ChatState::dh_sender_material(
                    ephemeral@,
                    our_identity@,
                    receiver_identity@,
                    receiver_prekey@,
                    opt_pub_view(receiver_onetime),
                ),
            ),
            r.receiver_used_keys matches Some(i) && i.onetime_key_id == onetime_key_id
                && i.prekey_id == prekey_id && i.ephemeral@ == pub_of(ephemeral@),
    {
        let vec = Self::dh_sender(
            ephemeral.get_keypair(),
            our_identity.get_keypair(),
            receiver_identity,
            receiver_prekey,
            receiver_onetime,
        );
        let ephemeral_public = ephemeral.get_public_key();
        let mut new_self = Self::new_sender(receiver_identity, vec);
        new_self.receiver_used_keys = Some(
            InitialData { onetime_key_id, ephemeral: ephemeral_public, prekey_id },
        );
        new_self
    }

    /// A session in the responder role of the X3DH handshake: the mirrored DH
    /// contributions seed the root chain, and the ratchet's private half is
    /// our identity key. When the bootstrap's ephemeral key and the sender's
    /// identity key are the public halves of scalars `ae` and `ai`, the root
    /// seed equals byte for byte what the initiator derived.
    pub fn initial_receiver(
        our_identity: IdentityKey,
        our_prekey: &SignedKey,
        initial_data: &InitialData,
        rachet: &PublicKey,
        onetime_key: Option<&Onetime>,
        sender_identity: &PublicKey,
    ) -> (r: Self)
        requires
            our_identity.wf(),
            our_prekey.wf(),
            initial_data.wf(),
            rachet.wf(),
            sender_identity.wf(),
            match onetime_key {
                Some(k) => k.wf(),
                None => true,
            },
        ensures
            r.wf(),
            r.root_chain.id == 0,
            r.root_chain.input_key@ == kdf_root(
                ChatState::dh_receiver_material(
                    initial_data.ephemeral@,
                    our_identity@,
                    sender_identity@,
                    our_prekey@,
                    opt_onetime_priv(onetime_key),
                ),
            ),
            r.sender_chain.id == 0,
            r.sender_chain.input_key@ == zero_key(),
            r.receiver_chain.id == 0,
            r.receiver_chain.input_key@ == zero_key(),
            r.rachet.our_keypair@ == our_identity@,
            r.rachet.their_public@ == rachet@,
            r.receiver_used_keys is None,
            r.last_previous_sender_id == 0,
            forall|ae: Seq<u8>, ai: Seq<u8>|
                initial_data.ephemeral@ == #[trigger] pub_of(ae) && sender_identity@
                    == #[trigger] pub_of(ai) ==> r.root_chain.input_key@ == kdf_root(
                    ChatState::dh_sender_material(
                        ae,
                        ai,
                        pub_of(our_identity@),
                        pub_of(our_prekey@),
                        opt_onetime_pub(onetime_key),
                    ),
                ),
    {
        let vec = Self::dh_receiver(
            &initial_data.ephemeral,
            our_identity.get_keypair(),
            sender_identity,
            our_prekey.get_keypair(),
            onetime_key,
        );
        Self::new_receiver(our_identity.get_keypair().duplicate(), rachet, vec)
    }

    /// Whether the session is freshly established: the handshake completed
    /// but nothing was sent yet, so a new handshake would be acceptable.
    pub fn is_fresh(&self) -> (r: bool)
        ensures
            r == (self.root_chain.id == 0 && self.sender_chain.id == 0),
    {
        self.root_chain.id == 0 && self.sender_chain.id == 0
    }

    /// One step of the sending chain, with no DH input: returns the current
    /// (possibly stale) ratchet public key, the fresh message key, and the
    /// stepped counter. Called once per outgoing message.
    pub fn move_sender(&mut self) -> (r: (PublicKey, Vec<u8>, u32))
        requires
            old(self).wf(),
            old(self).sender_chain.id < u32::MAX,
        ensures
            final(self).wf(),
            r.0.wf(),
            r.0@ == pub_of(final(self).rachet.our_keypair@),
            r.1@ == kdf_message(old(self).sender_chain.input_key@),
            r.1@.len() == KEY_LEN,
            r.2 == old(self).sender_chain.id + 1,
            final(self).sender_chain.id == old(self).sender_chain.id + 1,
            final(self).sender_chain.input_key@ == kdf_root(old(self).sender_chain.input_key@),
            chain_eq(final(self).root_chain, old(self).root_chain),
            chain_eq(final(self).receiver_chain, old(self).receiver_chain),
            rachet_eq(final(self).rachet, old(self).rachet),
            initial_opt_eq(final(self).receiver_used_keys, old(self).receiver_used_keys),
            final(self).last_previous_sender_id == old(self).last_previous_sender_id,
    {
        let key = self.sender_chain.step(None);
        (self.rachet.our_keypair.public_key(), key, self.sender_chain.id)
    }

    /// One step of the receiving chain under the current ratchet turn,
    /// without comparing ratchet keys: used to drain keys that still belong
    /// to the previous turn.
    pub fn move_receiver_no_turn(&mut self) -> (r: Vec<u8>)
        requires
            old(self).wf(),
            old(self).receiver_chain.id < u32::MAX,
        ensures
            final(self).wf(),
            r@ == kdf_message(old(self).receiver_chain.input_key@),
            r@.len() == KEY_LEN,
            final(self).receiver_chain.id == old(self).receiver_chain.id + 1,
            final(self).receiver_chain.input_key@ == kdf_root(old(self).receiver_chain.input_key@),
            chain_eq(final(self).root_chain, old(self).root_chain),
            chain_eq(final(self).sender_chain, old(self).sender_chain),
            rachet_eq(final(self).rachet, old(self).rachet),
            initial_opt_eq(final(self).receiver_used_keys, old(self).receiver_used_keys),
            final(self).last_previous_sender_id == old(self).last_previous_sender_id,
    {
        self.receiver_chain.step(None)
    }

    /// Advances the receiving side for an incoming ratchet key. If the key
    /// differs from the peer key we know, or no turn ever happened, a full
    /// DH-ratchet turn runs first: the ratchet steps on the new key, the root
    /// chain derives a new receiving seed from that DH output, and a second
    /// root step with the regenerated key pair derives a new sending seed.
    /// In all cases the receiving chain then advances one step and its
    /// message key is returned; repeated calls with the same key yield
    /// successive receiving keys without re-running DH.
    ///
    /// The final clause is the ratchet-turn symmetry: when the incoming key
    /// is the public half of a peer scalar `p`, the keying material of the
    /// turn's receiving-side root step equals what the peer fed to its own
    /// root chain — the secret derived from `p` and our previous ratchet
    /// public key, over the same root key.
    pub fn move_receiver(&mut self, new_public_key: &PublicKey) -> (r: Vec<u8>)
        requires
            old(self).wf(),
            new_public_key.wf(),
            old(self).receiver_chain.id < u32::MAX,
            old(self).turn_occurs(new_public_key@) ==> old(self).root_chain.id + 2 <= u32::MAX,
        ensures
            final(self).wf(),
            r@.len() == KEY_LEN,
            final(self).receiver_chain.id == old(self).receiver_chain.id + 1,
            initial_opt_eq(final(self).receiver_used_keys, old(self).receiver_used_keys),
            !old(self).turn_occurs(new_public_key@) ==> {
                &&& r@ == kdf_message(old(self).receiver_chain.input_key@)
                &&& final(self).receiver_chain.input_key@ == kdf_root(
                    old(self).receiver_chain.input_key@,
                )
                &&& chain_eq(final(self).root_chain, old(self).root_chain)
                &&& chain_eq(final(self).sender_chain, old(self).sender_chain)
                &&& rachet_eq(final(self).rachet, old(self).rachet)
                &&& final(self).last_previous_sender_id == old(self).last_previous_sender_id
            },
            old(self).turn_occurs(new_public_key@) ==> {
                let seed = old(self).turn_recv_seed(new_public_key@);
                let smat = old(self).turn_send_material(
                    new_public_key@,
                    final(self).rachet.our_keypair@,
                );
                &&& r@ == kdf_message(seed)
                &&& final(self).receiver_chain.input_key@ == kdf_root(seed)
                &&& final(self).root_chain.id == old(self).root_chain.id + 2
                &&& final(self).root_chain.input_key@ == kdf_root(smat)
                &&& final(self).sender_chain.id == old(self).sender_chain.id
                &&& final(self).sender_chain.input_key@ == kdf_message(smat)
                &&& final(self).rachet.their_public@ == new_public_key@
                &&& final(self).last_previous_sender_id == old(self).sender_chain.id
            },
            old(self).turn_occurs(new_public_key@) ==> forall|p: Seq<u8>|
                new_public_key@ == #[trigger] pub_of(p) ==> old(self).turn_recv_material(
                    new_public_key@,
                ) == Chain::step_material(
                    old(self).root_chain.input_key@,
                    Some(dh_shared(p, pub_of(old(self).rachet.our_keypair@))),
                ),
    {
        let turn = !(*new_public_key == self.rachet.their_public) || self.root_chain.id == 0;
        if turn {
            let receiver_dh = self.rachet.step(new_public_key.duplicate());
            let receiver_key = self.root_chain.step(Some(&receiver_dh));
            self.receiver_chain.set_key(receiver_key);
            self.last_previous_sender_id = self.sender_chain.id;
            let sender_dh = self.rachet.calculate_dh();
            let sender_key = self.root_chain.step(Some(&sender_dh));
            self.sender_chain.set_key(sender_key);
        }
        self.receiver_chain.step(None)
    }

    /// The sender-side session is poised to open a new chain toward the
    /// receiver-side session: the sender knows the receiver's current ratchet
    /// public key, and — having turned its own ratchet on it — holds the root
    /// key and fresh sending seed that one root step over the receiver's root
    /// key and the pair's DH secret derives.
    pub open spec fn poised(sender: ChatState, receiver: ChatState) -> bool {
        let dh = dh_shared(sender.rachet.our_keypair@, pub_of(receiver.rachet.our_keypair@));
        let material = Chain::step_material(receiver.root_chain.input_key@, Some(dh));
        &&& sender.rachet.their_public@ == pub_of(receiver.rachet.our_keypair@)
        &&& sender.sender_chain.input_key@ == kdf_message(material)
        &&& sender.root_chain.input_key@ == kdf_root(material)
    }

    /// Ratchet symmetry within one turn, machine-checked: when this session's
    /// receiving chain holds the same chain key as the peer session's sending
    /// chain, and the peer's current ratchet key is the one we already know,
    /// one sending step on the peer and one receiving step here yield the
    /// same message key. Everything but the two matched chains is untouched.
    pub fn matched_send_receive(sender: &mut ChatState, receiver: &mut ChatState) -> (r: (
        Vec<u8>,
        Vec<u8>,
    ))
        requires
            old(sender).wf(),
            old(receiver).wf(),
            old(sender).sender_chain.id < u32::MAX,
            old(receiver).receiver_chain.id < u32::MAX,
            old(receiver).receiver_chain.input_key@ == old(sender).sender_chain.input_key@,
            pub_of(old(sender).rachet.our_keypair@) == old(receiver).rachet.their_public@,
            old(receiver).root_chain.id != 0,
        ensures
            r.0@ == r.1@,
            r.0@ == kdf_message(old(sender).sender_chain.input_key@),
            final(sender).wf(),
            final(receiver).wf(),
            final(sender).sender_chain.input_key@ == kdf_root(old(sender).sender_chain.input_key@),
            final(receiver).receiver_chain.input_key@ == final(sender).sender_chain.input_key@,
            final(sender).sender_chain.id == old(sender).sender_chain.id + 1,
            final(receiver).receiver_chain.id == old(receiver).receiver_chain.id + 1,
            pub_of(final(sender).rachet.our_keypair@) == final(receiver).rachet.their_public@,
            final(receiver).root_chain.id != 0,
            rachet_eq(final(sender).rachet, old(sender).rachet),
            rachet_eq(final(receiver).rachet, old(receiver).rachet),
            chain_eq(final(sender).root_chain, old(sender).root_chain),
            chain_eq(final(receiver).root_chain, old(receiver).root_chain),
            chain_eq(final(sender).receiver_chain, old(sender).receiver_chain),
            chain_eq(final(receiver).sender_chain, old(receiver).sender_chain),
    {
        let (_, sender_key, _) = sender.move_sender();
        let their = sender.rachet.our_keypair.public_key();
        let receiver_key = receiver.move_receiver(&their);
        (sender_key, receiver_key)
    }

    /// Ratchet symmetry across a turn, machine-checked: the sender is poised
    /// toward the receiver and presents a ratchet key that is new to it, so
    /// the receiver's full DH-ratchet turn re-derives the sender's chain seed
    /// — by the agreement property of the Diffie-Hellman exchange — and the
    /// first message key under the new chain matches on both sides. The turn
    /// leaves the receiver poised toward the sender in its stead, so the
    /// roles can alternate indefinitely.
    pub fn matched_send_receive_at_turn(sender: &mut ChatState, receiver: &mut ChatState) -> (r: (
        Vec<u8>,
        Vec<u8>,
    ))
        requires
            old(sender).wf(),
            old(receiver).wf(),
            old(sender).sender_chain.id < u32::MAX,
            old(receiver).receiver_chain.id < u32::MAX,
            old(receiver).root_chain.id + 2 <= u32::MAX,
            ChatState::poised(*old(sender), *old(receiver)),
            pub_of(old(sender).rachet.our_keypair@) != old(receiver).rachet.their_public@ || old(
                receiver,
            ).root_chain.id == 0,
        ensures
            r.0@ == r.1@,
            final(sender).wf(),
            final(receiver).wf(),
            final(sender).sender_chain.input_key@ == kdf_root(old(sender).sender_chain.input_key@),
            final(receiver).receiver_chain.input_key@ == final(sender).sender_chain.input_key@,
            final(sender).sender_chain.id == old(sender).sender_chain.id + 1,
            final(receiver).receiver_chain.id == old(receiver).receiver_chain.id + 1,
            pub_of(final(sender).rachet.our_keypair@) == final(receiver).rachet.their_public@,
            final(receiver).root_chain.id == old(receiver).root_chain.id + 2,
            final(receiver).sender_chain.id == old(receiver).sender_chain.id,
            rachet_eq(final(sender).rachet, old(sender).rachet),
            chain_eq(final(sender).root_chain, old(sender).root_chain),
            chain_eq(final(sender).receiver_chain, old(sender).receiver_chain),
            ChatState::poised(*final(receiver), *final(sender)),
    {
        let (_, sender_key, _) = sender.move_sender();
        let their = sender.rachet.our_keypair.public_key();
        let receiver_key = receiver.move_receiver(&their);
        (sender_key, receiver_key)
    }

    /// Ratchet symmetry over a whole stream, checked for every seed and every
    /// length: from one shared root seed, the initiator's first `n` message
    /// keys and the responder's first `n` receiving keys agree pairwise — the
    /// first pair across the responder's ratchet turn, the rest along the
    /// matched symmetric chains.
    pub fn paired_session_stream(seed: Vec<u8>, n: u32) -> (r: (Vec<Vec<u8>>, Vec<Vec<u8>>))
        requires
            n < u32::MAX - 1,
        ensures
            r.0@.len() == n,
            r.1@.len() == n,
            forall|j: int| 0 <= j < n ==> (#[trigger] r.0@[j])@ == r.1@[j]@,
    {
        let bob_identity = Key::generate();
        let bob_public = bob_identity.public_key();
        let mut alice = ChatState::new_sender(&bob_public, copy_bytes(&seed));
        let alice_ratchet_public = alice.rachet.our_keypair.public_key();
        let mut bob = ChatState::new_receiver(bob_identity, &alice_ratchet_public, seed);
        let mut sent: Vec<Vec<u8>> = Vec::new();
        let mut received: Vec<Vec<u8>> = Vec::new();
        if n == 0 {
            return (sent, received);
        }
        let first = ChatState::matched_send_receive_at_turn(&mut alice, &mut bob);
        sent.push(first.0);
        received.push(first.1);
        let mut i: u32 = 1;
        while i < n
            invariant
                1 <= i <= n,
                n < u32::MAX - 1,
                alice.wf(),
                bob.wf(),
                bob.receiver_chain.input_key@ == alice.sender_chain.input_key@,
                pub_of(alice.rachet.our_keypair@) == bob.rachet.their_public@,
                bob.root_chain.id != 0,
                alice.sender_chain.id == i,
                bob.receiver_chain.id == i,
                sent@.len() == i,
                received@.len() == i,
                forall|j: int| 0 <= j < i ==> (#[trigger] sent@[j])@ == received@[j]@,
            decreases n - i,
        {
            let pair = ChatState::matched_send_receive(&mut alice, &mut bob);
            sent.push(pair.0);
            received.push(pair.1);
            i = i + 1;
        }
        (sent, received)
    }

    /// Ratchet symmetry over an alternating conversation, checked for every
    /// seed and every number of rounds: from one shared root seed, the two
    /// sides take turns, each sending two messages per round (the first
    /// crossing the peer's ratchet turn, the second along the new chain), and
    /// every message key agrees between the sending and the receiving side.
    /// Returns `None` in the one case the contracts cannot exclude: a freshly
    /// generated ratchet key colliding with the peer key already on record,
    /// which a genuine random source never produces in practice.
    pub fn paired_session_pingpong(seed: Vec<u8>, rounds: u32) -> (r: Option<
        (Vec<Vec<u8>>, Vec<Vec<u8>>),
    >)
        requires
            rounds <= 0x20000000,
        ensures
            r matches Some(pair) ==> {
                &&& pair.0@.len() == 4 * rounds
                &&& pair.1@.len() == 4 * rounds
                &&& forall|j: int| 0 <= j < 4 * rounds ==> (#[trigger] pair.0@[j])@
                    == pair.1@[j]@
            },
    {
        let bob_identity = Key::generate();
        let bob_public = bob_identity.public_key();
        let mut alice = ChatState::new_sender(&bob_public, copy_bytes(&seed));
        let alice_ratchet_public = alice.rachet.our_keypair.public_key();
        let mut bob = ChatState::new_receiver(bob_identity, &alice_ratchet_public, seed);
        let mut sent: Vec<Vec<u8>> = Vec::new();
        let mut received: Vec<Vec<u8>> = Vec::new();
        let mut i: u32 = 0;
        while i < rounds
            invariant
                i <= rounds,
                rounds <= 0x20000000,
                alice.wf(),
                bob.wf(),
                ChatState::poised(alice, bob),
                alice.sender_chain.id == 2 * i,
                bob.receiver_chain.id == 2 * i,
                bob.sender_chain.id == 2 * i,
                alice.receiver_chain.id == 2 * i,
                bob.root_chain.id == 2 * i,
                alice.root_chain.id == 1 + 2 * i,
                sent@.len() == 4 * i,
                received@.len() == 4 * i,
                forall|j: int| 0 <= j < 4 * i ==> (#[trigger] sent@[j])@ == received@[j]@,
            decreases rounds - i,
        {
            let alice_public = alice.rachet.our_keypair.public_key();
            if alice_public == bob.rachet.their_public && bob.root_chain.id != 0 {
                return None;
            }
            let p1 = ChatState::matched_send_receive_at_turn(&mut alice, &mut bob);
            sent.push(p1.0);
            received.push(p1.1);
            let p2 = ChatState::matched_send_receive(&mut alice, &mut bob);
            sent.push(p2.0);
            received.push(p2.1);
            let bob_public_now = bob.rachet.our_keypair.public_key();
            if bob_public_now == alice.rachet.their_public {
                return None;
            }
            let p3 = ChatState::matched_send_receive_at_turn(&mut bob, &mut alice);
            sent.push(p3.0);
            received.push(p3.1);
            let p4 = ChatState::matched_send_receive(&mut bob, &mut alice);
            sent.push(p4.0);
            received.push(p4.1);
            i = i + 1;
        }
        Some((sent, received))
    }

    /// Whether this state and a persisted record hold the same session: the
    /// peer ratchet key, our ratchet private key, and the three chains match.
    pub open spec fn corresponds(self, r: ChatStateRecord) -> bool {
        &&& r.dh_public@ == self.rachet.their_public@
        &&& r.dh_private@ == self.rachet.our_keypair@
        &&& r.root_input@ == self.root_chain.input_key@
        &&& r.sender_input@ == self.sender_chain.input_key@
        &&& r.receiver_input@ == self.receiver_chain.input_key@
        &&& r.root_id == self.root_chain.id
        &&& r.sender_id == self.sender_chain.id
        &&& r.receiver_id == self.receiver_chain.id
    }

    /// Serializes the session for persistence: the ratchet's two keys and the
    /// three chains, keys and counters. The handshake bootstrap payload is
    /// not persisted; it is only meaningful for the first outgoing message.
    pub fn save(&self) -> (r: ChatStateRecord)
        requires
            self.wf(),
        ensures
            r.wf(),
            self.corresponds(r),
    {
        ChatStateRecord {
            dh_public: self.rachet.their_public.to_bytes(),
            dh_private: self.rachet.our_keypair.to_bytes(),
            root_input: copy_bytes(&self.root_chain.input_key),
            sender_input: copy_bytes(&self.sender_chain.input_key),
            receiver_input: copy_bytes(&self.receiver_chain.input_key),
            root_id: self.root_chain.id,
            sender_id: self.sender_chain.id,
            receiver_id: self.receiver_chain.id,
        }
    }

    /// Reconstructs an equivalent session from a persisted record. The
    /// bootstrap payload and the skip boundary are not restored.
    pub fn load(record: &ChatStateRecord) -> (r: Self)
        requires
            record.wf(),
        ensures
            r.wf(),
            r.corresponds(*record),
            r.receiver_used_keys is None,
            r.last_previous_sender_id == 0,
    {
        ChatState {
            rachet: DHRachet {
                their_public: PublicKey::from_bytes(copy_bytes(&record.dh_public)),
                our_keypair: Key::from_bytes(copy_bytes(&record.dh_private)),
            },
            root_chain: Chain { id: record.root_id, input_key: copy_bytes(&record.root_input) },
            sender_chain: Chain {
                id: record.sender_id,
                input_key: copy_bytes(&record.sender_input),
            },
            receiver_chain: Chain {
                id: record.receiver_id,
                input_key: copy_bytes(&record.receiver_input),
            },
            receiver_used_keys: None,
            last_previous_sender_id: 0,
        }
    }
}

/// The persisted form of a session: what `save` writes and `load` reads,
/// upserted by the caller under its (chat, user) pair.
#[derive(Debug)]
pub struct ChatStateRecord {
    pub dh_public: Vec<u8>,
    pub dh_private: Vec<u8>,
    pub root_input: Vec<u8>,
    pub sender_input: Vec<u8>,
    pub receiver_input: Vec<u8>,
    pub root_id: u32,
    pub sender_id: u32,
    pub receiver_id: u32,
}

impl ChatStateRecord {
    pub open spec fn wf(&self) -> bool {
        &&& self.dh_public@.len() == KEY_LEN
        &&& self.dh_private@.len() == KEY_LEN
        &&& self.root_input@.len() == KEY_LEN
        &&& self.sender_input@.len() == KEY_LEN
        &&& self.receiver_input@.len() == KEY_LEN
    }
}

/// Persist/restore continuity: any state loaded from the record that a
/// session saved matches that session in every persisted component — the
/// ratchet keys and all three chains, counter for counter. Only the handshake
/// bootstrap payload and the skip boundary are not restored.
pub proof fn lemma_save_load_roundtrip(s: ChatState, record: ChatStateRecord, l: ChatState)
    requires
        s.corresponds(record),
        l.corresponds(record),
    ensures
        chain_eq(l.root_chain, s.root_chain),
        chain_eq(l.sender_chain, s.sender_chain),
        chain_eq(l.receiver_chain, s.receiver_chain),
        rachet_eq(l.rachet, s.rachet),
{
}

/// Everything but the receiving chain is equal between the two states.
pub open spec fn same_but_receiving(a: ChatState, b: ChatState) -> bool {
    &&& chain_eq(a.root_chain, b.root_chain)
    &&& chain_eq(a.sender_chain, b.sender_chain)
    &&& rachet_eq(a.rachet, b.rachet)
    &&& initial_opt_eq(a.receiver_used_keys, b.receiver_used_keys)
    &&& a.last_previous_sender_id == b.last_previous_sender_id
}

/// Value equality of two session states.
pub open spec fn state_eq(a: ChatState, b: ChatState) -> bool {
    same_but_receiving(a, b) && chain_eq(a.receiver_chain, b.receiver_chain)
}

/// The chain key after `n` steps of a symmetric chain that was seeded with
/// `key` and received no DH input.
pub open spec fn chain_key_after(key: Seq<u8>, n: nat) -> Seq<u8>
    decreases n,
{
    if n == 0 {
        key
    } else {
        kdf_root(chain_key_after(key, (n - 1) as nat))
    }
}

/// The message key that the `n + 1`-th step of such a chain returns.
pub open spec fn message_key_at(key: Seq<u8>, n: nat) -> Seq<u8> {
    kdf_message(chain_key_after(key, n))
}

/// Ratchet symmetry, steady state: two symmetric chains seeded with the same
/// key — the sender's sending chain and the peer's receiving chain — yield
/// the identical message key at every later step, however many messages each
/// round carries. (The seeds of the two chains agree at every ratchet turn by
/// the turn-symmetry clause of `move_receiver` and the seeding clauses of
/// `new_sender`.)
pub proof fn lemma_matched_chains(a: Seq<u8>, b: Seq<u8>, n: nat)
    requires
        a == b,
    ensures
        message_key_at(a, n) == message_key_at(b, n),
{
}

} // verus!
