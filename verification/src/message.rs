use vstd::prelude::*;

use crate::bytes::append_bytes;
use crate::chat::{
    chain_eq, chain_key_after, message_key_at, rachet_eq, same_but_receiving, state_eq, Chain,
    ChatState,
};
use crate::encryption::{aead_len_ok, decrypt, encrypt, kdf_message, kdf_root, opened, sealed};
use crate::errors::SessionError;
use crate::keys::{dh_shared, pub_of, PublicKey};
use crate::KEY_LEN;

verus! {

/// The handshake bootstrap payload attached to the first outgoing message of
/// a session: the initiator's ephemeral public key and the ids of the peer
/// keys the handshake consumed.
#[derive(Debug, Clone)]
pub struct InitialData {
    pub onetime_key_id: Option<u32>,
    pub ephemeral: PublicKey,
    pub prekey_id: u32,
}

impl InitialData {
    pub open spec fn wf(&self) -> bool {
        self.ephemeral.wf()
    }

    /// Returns an identical payload.
    pub fn duplicate(&self) -> (r: InitialData)
        ensures
            r.onetime_key_id == self.onetime_key_id,
            r.ephemeral@ == self.ephemeral@,
            r.prekey_id == self.prekey_id,
    {
        InitialData {
            onetime_key_id: self.onetime_key_id,
            ephemeral: self.ephemeral.duplicate(),
            prekey_id: self.prekey_id,
        }
    }

    /// The canonical serialization of the payload: a presence byte and the
    /// one-time key id, the ephemeral public key, then the prekey id.
    pub open spec fn encoding(self) -> Seq<u8> {
        (match self.onetime_key_id {
            Some(id) => seq![1u8] + u32_le(id),
            None => seq![0u8],
        }) + self.ephemeral@ + u32_le(self.prekey_id)
    }
}

/// Equality of optional bootstrap payloads, by value.
pub open spec fn initial_opt_eq(a: Option<InitialData>, b: Option<InitialData>) -> bool {
    match (a, b) {
        (Some(x), Some(y)) => x.onetime_key_id == y.onetime_key_id && x.ephemeral@ == y.ephemeral@
            && x.prekey_id == y.prekey_id,
        (None, None) => true,
        _ => false,
    }
}

/// The header of a wire message. Its canonical serialization is bound to the
/// ciphertext as authenticated associated data, so the field order below is a
/// wire-level contract.
#[derive(Debug, Clone)]
pub struct MessageHeader {
    /// The sending-chain counter of this message (local to the sender).
    pub id: u32,
    /// The sender's current ratchet public key.
    pub rachet_key: PublicKey,
    /// The handshake bootstrap payload, on the first messages of a session.
    pub initial: Option<InitialData>,
    /// The sender's sending-chain counter at its last ratchet turn: messages
    /// up to this counter belong to the previous receiving chain of the peer.
    pub previous_receiver_length: u32,
}

/// A framed wire message: header and sealed payload.
#[derive(Debug, Clone)]
pub struct Message {
    pub header: MessageHeader,
    pub ciphertext: Vec<u8>,
}

/// The four little-endian bytes of a 32-bit counter.
pub open spec fn u32_le(x: u32) -> Seq<u8> {
    seq![
        (x & 0xFF) as u8,
        ((x >> 8) & 0xFF) as u8,
        ((x >> 16) & 0xFF) as u8,
        ((x >> 24) & 0xFF) as u8,
    ]
}

/// Appends the four little-endian bytes of `x`.
fn push_u32_le(out: &mut Vec<u8>, x: u32)
    ensures
        final(out)@ == old(out)@ + u32_le(x),
{
    out.push((x & 0xFF) as u8);
    out.push(((x >> 8) & 0xFF) as u8);
    out.push(((x >> 16) & 0xFF) as u8);
    out.push(((x >> 24) & 0xFF) as u8);
    proof {
        assert(out@ =~= old(out)@ + u32_le(x));
    }
}

impl MessageHeader {
    pub open spec fn wf(&self) -> bool {
        &&& self.rachet_key.wf()
        &&& match self.initial {
            Some(i) => i.wf(),
            None => true,
        }
    }

    /// The canonical serialization of the header: counter, ratchet public
    /// key, optional bootstrap payload behind a presence byte, and the
    /// previous-chain boundary counter, in that order.
    pub open spec fn encoding(self) -> Seq<u8> {
        u32_le(self.id) + self.rachet_key@ + (match self.initial {
            Some(i) => seq![1u8] + i.encoding(),
            None => seq![0u8],
        }) + u32_le(self.previous_receiver_length)
    }

    /// Serializes the header canonically, for use as associated data.
    pub fn encode(&self) -> (r: Vec<u8>)
        requires
            self.wf(),
        ensures
            r@ == self.encoding(),
    {
        let mut out: Vec<u8> = Vec::new();
        push_u32_le(&mut out, self.id);
        let key_bytes = self.rachet_key.to_bytes();
        append_bytes(&mut out, &key_bytes);
        match &self.initial {
            Some(initial) => {
                out.push(1);
                match initial.onetime_key_id {
                    Some(id) => {
                        out.push(1);
                        push_u32_le(&mut out, id);
                    },
                    None => {
                        out.push(0);
                    },
                }
                let ephemeral_bytes = initial.ephemeral.to_bytes();
                append_bytes(&mut out, &ephemeral_bytes);
                push_u32_le(&mut out, initial.prekey_id);
            },
            None => {
                out.push(0);
            },
        }
        push_u32_le(&mut out, self.previous_receiver_length);
        proof {
            assert(out@ =~= self.encoding());
        }
        out
    }

    /// The encoded header is short: at most 82 bytes.
    pub proof fn lemma_encoding_len(self)
        requires
            self.wf(),
        ensures
            self.encoding().len() <= 82,
    {
        match self.initial {
            Some(i) => {
                match i.onetime_key_id {
                    Some(_) => {
                        assert(i.encoding().len() == 5 + 32 + 4);
                        assert(self.encoding().len() == 4 + 32 + 1 + 41 + 4);
                    },
                    None => {
                        assert(i.encoding().len() == 1 + 32 + 4);
                        assert(self.encoding().len() == 4 + 32 + 1 + 37 + 4);
                    },
                }
            },
            None => {
                assert(self.encoding().len() == 4 + 32 + 1 + 4);
            },
        }
    }

}

/// Two 32-bit counters with the same little-endian bytes are equal.
proof fn lemma_u32_le_injective(x: u32, y: u32)
    requires
        u32_le(x) == u32_le(y),
    ensures
        x == y,
{
    assert(u32_le(x)[0] == u32_le(y)[0]);
    assert(u32_le(x)[1] == u32_le(y)[1]);
    assert(u32_le(x)[2] == u32_le(y)[2]);
    assert(u32_le(x)[3] == u32_le(y)[3]);
    assert(x == y) by (bit_vector)
        requires
            (x & 0xFF) as u8 == (y & 0xFF) as u8,
            ((x >> 8) & 0xFF) as u8 == ((y >> 8) & 0xFF) as u8,
            ((x >> 16) & 0xFF) as u8 == ((y >> 16) & 0xFF) as u8,
            ((x >> 24) & 0xFF) as u8 == ((y >> 24) & 0xFF) as u8,
    ;
}

/// The canonical header serialization is injective: two headers that
/// serialize to the same associated data agree in every field, so the AEAD
/// tag over the serialization authenticates the whole header.
pub proof fn lemma_encoding_injective(a: MessageHeader, b: MessageHeader)
    requires
        a.wf(),
        b.wf(),
        a.encoding() == b.encoding(),
    ensures
        a.id == b.id,
        a.rachet_key@ == b.rachet_key@,
        initial_opt_eq(a.initial, b.initial),
        a.previous_receiver_length == b.previous_receiver_length,
{
    let ea = a.encoding();
    a.lemma_encoding_len();
    b.lemma_encoding_len();
    // The three layouts have pairwise different lengths (41, 78 and 82
    // bytes), so equal encodings fall in the same case.
    match (a.initial, b.initial) {
        (None, None) => {
            assert(u32_le(a.id) =~= ea.subrange(0, 4));
            assert(u32_le(b.id) =~= ea.subrange(0, 4));
            lemma_u32_le_injective(a.id, b.id);
            assert(a.rachet_key@ =~= ea.subrange(4, 36));
            assert(b.rachet_key@ =~= ea.subrange(4, 36));
            assert(u32_le(a.previous_receiver_length) =~= ea.subrange(37, 41));
            assert(u32_le(b.previous_receiver_length) =~= ea.subrange(37, 41));
            lemma_u32_le_injective(a.previous_receiver_length, b.previous_receiver_length);
        },
        (Some(ia), Some(ib)) => {
            assert(u32_le(a.id) =~= ea.subrange(0, 4));
            assert(u32_le(b.id) =~= ea.subrange(0, 4));
            lemma_u32_le_injective(a.id, b.id);
            assert(a.rachet_key@ =~= ea.subrange(4, 36));
            assert(b.rachet_key@ =~= ea.subrange(4, 36));
            match (ia.onetime_key_id, ib.onetime_key_id) {
                (None, None) => {
                    assert(ia.ephemeral@ =~= ea.subrange(38, 70));
                    assert(ib.ephemeral@ =~= ea.subrange(38, 70));
                    assert(u32_le(ia.prekey_id) =~= ea.subrange(70, 74));
                    assert(u32_le(ib.prekey_id) =~= ea.subrange(70, 74));
                    lemma_u32_le_injective(ia.prekey_id, ib.prekey_id);
                    assert(u32_le(a.previous_receiver_length) =~= ea.subrange(74, 78));
                    assert(u32_le(b.previous_receiver_length) =~= ea.subrange(74, 78));
                    lemma_u32_le_injective(
                        a.previous_receiver_length,
                        b.previous_receiver_length,
                    );
                },
                (Some(oa), Some(ob)) => {
                    assert(u32_le(oa) =~= ea.subrange(38, 42));
                    assert(u32_le(ob) =~= ea.subrange(38, 42));
                    lemma_u32_le_injective(oa, ob);
                    assert(ia.ephemeral@ =~= ea.subrange(42, 74));
                    assert(ib.ephemeral@ =~= ea.subrange(42, 74));
                    assert(u32_le(ia.prekey_id) =~= ea.subrange(74, 78));
                    assert(u32_le(ib.prekey_id) =~= ea.subrange(74, 78));
                    lemma_u32_le_injective(ia.prekey_id, ib.prekey_id);
                    assert(u32_le(a.previous_receiver_length) =~= ea.subrange(78, 82));
                    assert(u32_le(b.previous_receiver_length) =~= ea.subrange(78, 82));
                    lemma_u32_le_injective(
                        a.previous_receiver_length,
                        b.previous_receiver_length,
                    );
                },
                (Some(_), None) => {
                    assert(ea.len() == 82 && ea.len() == 78);
                },
                (None, Some(_)) => {
                    assert(ea.len() == 78 && ea.len() == 82);
                },
            }
        },
        (Some(ia), None) => {
            assert(ea.len() == 41);
            assert(ia.encoding().len() == 37 || ia.encoding().len() == 41);
        },
        (None, Some(ib)) => {
            assert(ea.len() == 41);
            assert(ib.encoding().len() == 37 || ib.encoding().len() == 41);
        },
    }
}

/// The cap on how many message keys one incoming header may force the
/// receiving chain to derive: beyond it the message is rejected with
/// `SkippedKeyOverflow`, so an attacker-controlled counter gap cannot force
/// unbounded derivation work.
pub const MAX_SKIP: u32 = 1000;

/// What one send step produces: the framed wire message, and the message key
/// for the caller to persist under the header's counter.
#[derive(Debug)]
pub struct SendOutcome {
    pub message: Message,
    pub message_key: Vec<u8>,
}

/// A message key derived for a counter that was skipped over: the caller
/// persists it so the skipped message can still be decrypted when it arrives.
#[derive(Debug)]
pub struct SkippedKey {
    pub id: u32,
    pub key: Vec<u8>,
}

/// What one receive step produces: the keys derived for skipped counters, the
/// message's own key, and the plaintext — `None` when authentication failed,
/// with no partial plaintext released.
#[derive(Debug)]
pub struct ReceiveOutcome {
    pub skipped_keys: Vec<SkippedKey>,
    pub message_key: Vec<u8>,
    pub plaintext: Option<Vec<u8>>,
}

/// One outgoing message: steps the sending chain once (no DH input), frames
/// the header with the current ratchet public key, the pending bootstrap
/// payload and the skip boundary, and seals the plaintext with the canonical
/// header serialization as associated data.
pub fn send_inner(chat: &mut ChatState, plaintext: &Vec<u8>) -> (r: SendOutcome)
    requires
        old(chat).wf(),
        old(chat).sender_chain.id < u32::MAX,
        aead_len_ok(plaintext@.len()),
    ensures
        final(chat).wf(),
        final(chat).sender_chain.id == old(chat).sender_chain.id + 1,
        final(chat).sender_chain.input_key@ == kdf_root(old(chat).sender_chain.input_key@),
        chain_eq(final(chat).root_chain, old(chat).root_chain),
        chain_eq(final(chat).receiver_chain, old(chat).receiver_chain),
        rachet_eq(final(chat).rachet, old(chat).rachet),
        initial_opt_eq(final(chat).receiver_used_keys, old(chat).receiver_used_keys),
        final(chat).last_previous_sender_id == old(chat).last_previous_sender_id,
        r.message.header.wf(),
        r.message.header.id == old(chat).sender_chain.id + 1,
        r.message.header.rachet_key@ == pub_of(old(chat).rachet.our_keypair@),
        initial_opt_eq(r.message.header.initial, old(chat).receiver_used_keys),
        r.message.header.previous_receiver_length == old(chat).last_previous_sender_id,
        r.message_key@ == kdf_message(old(chat).sender_chain.input_key@),
        r.message_key@.len() == KEY_LEN,
        r.message.ciphertext@ == sealed(r.message_key@, plaintext@, r.message.header.encoding()),
        opened(r.message_key@, r.message.ciphertext@, r.message.header.encoding()) == Some(
            plaintext@,
        ),
{
    let (rachet_key, message_key, id) = chat.move_sender();
    let initial = match &chat.receiver_used_keys {
        Some(i) => Some(i.duplicate()),
        None => None,
    };
    let header = MessageHeader {
        id,
        rachet_key,
        initial,
        previous_receiver_length: chat.last_previous_sender_id,
    };
    proof {
        header.lemma_encoding_len();
    }
    let ad = header.encode();
    let ciphertext = encrypt(&message_key, plaintext, &ad);
    SendOutcome { message: Message { header, ciphertext }, message_key }
}

/// The receiving counter up to which keys still belong to the previous
/// ratchet turn, seen from state `s` with header boundary `pn`.
pub open spec fn turn_boundary(s: ChatState, pn: u32) -> int {
    if s.receiver_chain.id >= pn {
        s.receiver_chain.id as int
    } else {
        pn as int
    }
}

/// The message key the receiving side derives for counter `i`, starting from
/// state `s`, with incoming ratchet key `k` and header boundary `pn`:
/// counters up to the turn boundary continue the current receiving chain;
/// counters beyond it run on the chain that the ratchet turn on `k` seeds.
pub open spec fn received_key_at(s: ChatState, k: Seq<u8>, pn: u32, i: int) -> Seq<u8> {
    if s.turn_occurs(k) {
        let b = turn_boundary(s, pn);
        if i <= b {
            message_key_at(s.receiver_chain.input_key@, (i - s.receiver_chain.id - 1) as nat)
        } else {
            message_key_at(s.turn_recv_seed(k), (i - b - 1) as nat)
        }
    } else {
        message_key_at(s.receiver_chain.input_key@, (i - s.receiver_chain.id - 1) as nat)
    }
}

/// The state components after the ratchet turn that receiving on key `k`
/// performs, relative to the pre-turn state `s`; `c.rachet.our_keypair` is
/// the freshly regenerated key pair.
pub open spec fn post_turn_state(s: ChatState, c: ChatState, k: Seq<u8>) -> bool {
    let smat = s.turn_send_material(k, c.rachet.our_keypair@);
    &&& c.root_chain.id == s.root_chain.id + 2
    &&& c.root_chain.input_key@ == kdf_root(smat)
    &&& c.sender_chain.id == s.sender_chain.id
    &&& c.sender_chain.input_key@ == kdf_message(smat)
    &&& c.rachet.their_public@ == k
    &&& c.last_previous_sender_id == s.sender_chain.id
}

/// The ratchet-turn symmetry fact receiving on `k` from state `s` gives: when
/// `k` is the public half of a peer scalar `p`, the keying material of the
/// turn's receiving-side root step equals what the peer fed to its own root
/// chain — the secret derived from `p` and our ratchet public key, over the
/// same root key.
pub open spec fn turn_material_symmetry(s: ChatState, k: Seq<u8>) -> bool {
    forall|p: Seq<u8>| k == #[trigger] pub_of(p) ==> s.turn_recv_material(k)
        == Chain::step_material(
        s.root_chain.input_key@,
        Some(dh_shared(p, pub_of(s.rachet.our_keypair@))),
    )
}

/// Whether receive rejects this header as undecryptable before touching the
/// session: its counter was already consumed, or its boundary lies at or
/// beyond its own counter although the key announces a turn.
pub open spec fn header_rejected(s: ChatState, h: MessageHeader) -> bool {
    h.id <= s.receiver_chain.id || (s.turn_occurs(h.rachet_key@) && h.previous_receiver_length
        >= h.id)
}

/// Whether the header's counter gap exceeds the skipped-key cap.
pub open spec fn header_overflows(s: ChatState, h: MessageHeader) -> bool {
    h.id - s.receiver_chain.id > MAX_SKIP
}

/// One incoming message. A header whose counter was already consumed, or
/// whose turn boundary is inconsistent, is rejected as undecryptable; a
/// counter gap over the cap is rejected as an overflow; both leave the
/// session untouched. Otherwise the receiving side is advanced to the
/// header's counter — draining the previous chain up to the turn boundary,
/// turning the DH ratchet if the header carries a new ratchet key, and
/// stepping the (possibly reseeded) receiving chain — and every derived key
/// is returned: the skipped ones for the caller to persist, and the
/// message's own key, under which the ciphertext is opened with the
/// canonical header serialization as associated data.
pub fn receive_inner(chat: &mut ChatState, message: &Message) -> (r: Result<
    ReceiveOutcome,
    SessionError,
>)
    requires
        old(chat).wf(),
        message.header.wf(),
        old(chat).root_chain.id + 2 <= u32::MAX,
    ensures
        final(chat).wf(),
        header_rejected(*old(chat), message.header) ==> r == Err::<ReceiveOutcome, SessionError>(
            SessionError::AuthenticationFailure,
        ) && state_eq(*final(chat), *old(chat)),
        !header_rejected(*old(chat), message.header) && header_overflows(
            *old(chat),
            message.header,
        ) ==> r == Err::<ReceiveOutcome, SessionError>(SessionError::SkippedKeyOverflow)
            && state_eq(*final(chat), *old(chat)),
        !header_rejected(*old(chat), message.header) && !header_overflows(
            *old(chat),
            message.header,
        ) ==> ({
            let s = *old(chat);
            let h = message.header;
            let k = h.rachet_key@;
            let pn = h.previous_receiver_length;
            &&& r matches Ok(out) && ({
                &&& out.message_key@ == received_key_at(s, k, pn, h.id as int)
                &&& out.message_key@.len() == KEY_LEN
                &&& out.skipped_keys@.len() == h.id - s.receiver_chain.id - 1
                &&& forall|j: int| 0 <= j < out.skipped_keys@.len() ==> (#[trigger] out.skipped_keys@[j]).id
                    == s.receiver_chain.id + 1 + j && out.skipped_keys@[j].key@ == received_key_at(
                    s,
                    k,
                    pn,
                    s.receiver_chain.id + 1 + j,
                )
                &&& (out.plaintext matches Some(p) ==> opened(
                    out.message_key@,
                    message.ciphertext@,
                    h.encoding(),
                ) == Some(p@))
                &&& (out.plaintext is None <==> opened(
                    out.message_key@,
                    message.ciphertext@,
                    h.encoding(),
                ) is None)
            })
            &&& final(chat).receiver_chain.id == h.id
            &&& (s.turn_occurs(k) ==> {
                &&& post_turn_state(s, *final(chat), k)
                &&& final(chat).receiver_chain.input_key@ == chain_key_after(
                    s.turn_recv_seed(k),
                    (h.id - turn_boundary(s, pn)) as nat,
                )
                &&& turn_material_symmetry(s, k)
            })
            &&& (!s.turn_occurs(k) ==> {
                &&& same_but_receiving(s, *final(chat))
                &&& final(chat).receiver_chain.input_key@ == chain_key_after(
                    s.receiver_chain.input_key@,
                    (h.id - s.receiver_chain.id) as nat,
                )
            })
            &&& initial_opt_eq(final(chat).receiver_used_keys, s.receiver_used_keys)
        }),
{
    let ghost s = *old(chat);
    let ghost k = message.header.rachet_key@;
    let pn = message.header.previous_receiver_length;
    let turn = !(message.header.rachet_key == chat.rachet.their_public) || chat.root_chain.id == 0;
    if message.header.id <= chat.receiver_chain.id || (turn && pn >= message.header.id) {
        return Err(SessionError::AuthenticationFailure);
    }
    if message.header.id - chat.receiver_chain.id > MAX_SKIP {
        return Err(SessionError::SkippedKeyOverflow);
    }
    let mut skipped: Vec<SkippedKey> = Vec::new();
    if turn {
        while chat.receiver_chain.id < pn
            invariant
                chat.wf(),
                message.header.wf(),
                s.turn_occurs(k),
                k == message.header.rachet_key@,
                pn == message.header.previous_receiver_length,
                s.receiver_chain.id < message.header.id,
                pn < message.header.id,
                message.header.id - s.receiver_chain.id <= MAX_SKIP,
                same_but_receiving(s, *chat),
                s.receiver_chain.id <= chat.receiver_chain.id,
                chat.receiver_chain.id as int <= turn_boundary(s, pn),
                chat.receiver_chain.input_key@ == chain_key_after(
                    s.receiver_chain.input_key@,
                    (chat.receiver_chain.id - s.receiver_chain.id) as nat,
                ),
                skipped@.len() == chat.receiver_chain.id - s.receiver_chain.id,
                forall|j: int| 0 <= j < skipped@.len() ==> (#[trigger] skipped@[j]).id
                    == s.receiver_chain.id + 1 + j && skipped@[j].key@ == received_key_at(
                    s,
                    k,
                    pn,
                    s.receiver_chain.id + 1 + j,
                ),
            decreases pn - chat.receiver_chain.id,
        {
            let key = chat.move_receiver_no_turn();
            skipped.push(SkippedKey { id: chat.receiver_chain.id, key });
            proof {
                let n = (chat.receiver_chain.id - s.receiver_chain.id) as nat;
                assert(chain_key_after(s.receiver_chain.input_key@, n) == kdf_root(
                    chain_key_after(s.receiver_chain.input_key@, (n - 1) as nat),
                ));
                assert(skipped@[skipped@.len() - 1].key@ == received_key_at(
                    s,
                    k,
                    pn,
                    chat.receiver_chain.id as int,
                ));
            }
        }
    }
    while chat.receiver_chain.id + 1 < message.header.id
        invariant
            chat.wf(),
            message.header.wf(),
            k == message.header.rachet_key@,
            pn == message.header.previous_receiver_length,
            turn == s.turn_occurs(k),
            s.receiver_chain.id < message.header.id,
            s.turn_occurs(k) ==> pn < message.header.id,
            s.root_chain.id + 2 <= u32::MAX,
            message.header.id - s.receiver_chain.id <= MAX_SKIP,
            s.receiver_chain.id <= chat.receiver_chain.id < message.header.id,
            initial_opt_eq(chat.receiver_used_keys, s.receiver_used_keys),
            s.turn_occurs(k) && chat.receiver_chain.id as int <= turn_boundary(s, pn) ==> {
                &&& chat.receiver_chain.id as int == turn_boundary(s, pn)
                &&& same_but_receiving(s, *chat)
                &&& chat.receiver_chain.input_key@ == chain_key_after(
                    s.receiver_chain.input_key@,
                    (chat.receiver_chain.id - s.receiver_chain.id) as nat,
                )
                &&& chat.turn_occurs(k)
            },
            s.turn_occurs(k) && chat.receiver_chain.id as int > turn_boundary(s, pn) ==> {
                &&& post_turn_state(s, *chat, k)
                &&& chat.receiver_chain.input_key@ == chain_key_after(
                    s.turn_recv_seed(k),
                    (chat.receiver_chain.id - turn_boundary(s, pn)) as nat,
                )
                &&& !chat.turn_occurs(k)
                &&& turn_material_symmetry(s, k)
            },
            !s.turn_occurs(k) ==> {
                &&& same_but_receiving(s, *chat)
                &&& chat.receiver_chain.input_key@ == chain_key_after(
                    s.receiver_chain.input_key@,
                    (chat.receiver_chain.id - s.receiver_chain.id) as nat,
                )
                &&& !chat.turn_occurs(k)
            },
            skipped@.len() == chat.receiver_chain.id - s.receiver_chain.id,
            forall|j: int| 0 <= j < skipped@.len() ==> (#[trigger] skipped@[j]).id
                == s.receiver_chain.id + 1 + j && skipped@[j].key@ == received_key_at(
                s,
                k,
                pn,
                s.receiver_chain.id + 1 + j,
            ),
        decreases message.header.id - chat.receiver_chain.id,
    {
        let ghost pre = *chat;
        let key = chat.move_receiver(&message.header.rachet_key);
        skipped.push(SkippedKey { id: chat.receiver_chain.id, key });
        proof {
            let i = chat.receiver_chain.id as int;
            if s.turn_occurs(k) {
                let b = turn_boundary(s, pn);
                if pre.receiver_chain.id <= b {
                    // this call performed the turn
                    assert(pre.turn_recv_seed(k) == s.turn_recv_seed(k));
                    assert(chain_key_after(s.turn_recv_seed(k), 1) == kdf_root(
                        chain_key_after(s.turn_recv_seed(k), 0),
                    ));
                    assert(key@ == received_key_at(s, k, pn, i));
                } else {
                    let n = (i - b) as nat;
                    assert(chain_key_after(s.turn_recv_seed(k), n) == kdf_root(
                        chain_key_after(s.turn_recv_seed(k), (n - 1) as nat),
                    ));
                    assert(key@ == received_key_at(s, k, pn, i));
                }
            } else {
                let n = (i - s.receiver_chain.id) as nat;
                assert(chain_key_after(s.receiver_chain.input_key@, n) == kdf_root(
                    chain_key_after(s.receiver_chain.input_key@, (n - 1) as nat),
                ));
                assert(key@ == received_key_at(s, k, pn, i));
            }
        }
    }
    let ghost pre_final = *chat;
    let message_key = chat.move_receiver(&message.header.rachet_key);
    proof {
        let i = chat.receiver_chain.id as int;
        assert(i == message.header.id);
        if s.turn_occurs(k) {
            let b = turn_boundary(s, pn);
            if pre_final.receiver_chain.id <= b {
                assert(pre_final.turn_recv_seed(k) == s.turn_recv_seed(k));
                assert(chain_key_after(s.turn_recv_seed(k), 1) == kdf_root(
                    chain_key_after(s.turn_recv_seed(k), 0),
                ));
                assert(message_key@ == received_key_at(s, k, pn, i));
            } else {
                let n = (i - b) as nat;
                assert(chain_key_after(s.turn_recv_seed(k), n) == kdf_root(
                    chain_key_after(s.turn_recv_seed(k), (n - 1) as nat),
                ));
                assert(message_key@ == received_key_at(s, k, pn, i));
            }
        } else {
            let n = (i - s.receiver_chain.id) as nat;
            assert(chain_key_after(s.receiver_chain.input_key@, n) == kdf_root(
                chain_key_after(s.receiver_chain.input_key@, (n - 1) as nat),
            ));
            assert(message_key@ == received_key_at(s, k, pn, i));
        }
    }
    let ad = message.header.encode();
    let plaintext = match decrypt(&message_key, &message.ciphertext, &ad) {
        Ok(p) => Some(p),
        Err(_) => None,
    };
    Ok(ReceiveOutcome { skipped_keys: skipped, message_key, plaintext })
}

/// Decrypts a message under a key looked up from the skipped-key store (or
/// any persisted message key): the ciphertext is opened with the canonical
/// header serialization as associated data, and `None` is returned on any
/// mismatch, with no partial plaintext.
pub fn try_decrypt(message_key: &Vec<u8>, message: &Message) -> (r: Option<Vec<u8>>)
    requires
        message_key@.len() == KEY_LEN,
        message.header.wf(),
    ensures
        r matches Some(p) ==> opened(message_key@, message.ciphertext@, message.header.encoding())
            == Some(p@),
        r is None <==> opened(message_key@, message.ciphertext@, message.header.encoding()) is None,
{
    let ad = message.header.encode();
    match decrypt(message_key, &message.ciphertext, &ad) {
        Ok(p) => Some(p),
        Err(_) => None,
    }
}

} // verus!
