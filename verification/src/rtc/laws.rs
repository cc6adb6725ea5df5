//! What the data channels and the signal client promise.

use vstd::prelude::*;
use vstd::utf8::encode_utf8;

use super::{
    connection_binding, fingerprint, ice_to_use, on_signal, registration_for, right_media_step,
    Backoff, MediaStep, SignalActionModel, SignalClientModel, MAX_BACKOFF_SECS,
};
use crate::auth::laws::law_binding_is_order_independent;
use crate::capture::EncodedFrame;
use crate::chunks::laws::{feed, is_order, law_any_order, may_start, sent};
use crate::chunks::{accept, chunk_count, idle, Partial, CHUNK_PAYLOAD};
use crate::crypto::{ed25519_point, ed25519_public, ed25519_signature, ed25519_signed};
use crate::protocol::laws::law_round_trip;
use crate::protocol::{
    body, parse, wire, within_limits, DecodeError, DecodedModel, MessageModel, MAX_CLIPBOARD_LEN,
    MAX_MESSAGE_LEN,
};
use crate::session::{clipboard_of, Phase};
use crate::signal::directory::{react, ConnectionModel, DirectoryModel};
use crate::signal::identity::{payload, same_key, signature_check};
use crate::signal::laws::law_hex_round_trip;
use crate::signal::protocol::{ErrorCode, ServerModel};
use crate::text::hex_text;

verus! {

/// A message that is sent in chunks arrives: in whatever order its chunks come,
/// the last of them gives bytes that decode to the message.
pub proof fn law_chunked_message_arrives(
    p: Partial,
    seq: u32,
    m: MessageModel,
    order: Seq<int>,
)
    requires
        within_limits(m),
        body(m).len() <= MAX_MESSAGE_LEN,
        is_order(order, chunk_count(wire(m).len())),
        may_start(p, seq),
    ensures
        ({
            let all = sent(seq, wire(m), order);
            let (after, out) = accept(feed(p, all.drop_last()), all.last());
            &&& after == idle(Some(seq))
            &&& out is Some
            &&& parse(out->0) == Ok::<DecodedModel, DecodeError>(
                DecodedModel::Message { message: m, consumed: wire(m).len() as int },
            )
        }),
{
    assert(CHUNK_PAYLOAD == 16376);
    assert(chunk_count(wire(m).len()) < 0x1_0000);
    law_any_order(p, seq, wire(m), order);
    law_round_trip(m, Seq::empty());
    assert(wire(m) + Seq::<u8>::empty() =~= wire(m));
}

/// Clipboard content of any accepted size crosses the bulk channel unchanged.
pub proof fn law_clipboard_crosses_the_bulk_channel(
    p: Partial,
    seq: u32,
    text: Seq<char>,
    order: Seq<int>,
)
    requires
        encode_utf8(text).len() <= MAX_CLIPBOARD_LEN,
        is_order(order, chunk_count(wire(MessageModel::ClipboardData(text)).len())),
        may_start(p, seq),
    ensures
        ({
            let all = sent(seq, wire(MessageModel::ClipboardData(text)), order);
            let (after, out) = accept(feed(p, all.drop_last()), all.last());
            out is Some && clipboard_of(out->0) == Some(text)
        }),
{
    let m = MessageModel::ClipboardData(text);
    assert(body(m).len() == 2 + encode_utf8(text).len());
    law_chunked_message_arrives(p, seq, m, order);
}

/// No frame goes onto the media channel before the controller is in.
pub proof fn law_media_channel_waits(
    phase: Phase,
    frame: Option<EncodedFrame>,
    buffered: usize,
    step: MediaStep,
)
    requires
        phase != Phase::Streaming,
        right_media_step(phase, frame, buffered, step),
    ensures
        step is Wait,
{
}

/// Both ends of a connection derive the same binding from its descriptions: the
/// one's local description is the other's remote one.
pub proof fn law_both_ends_agree(a: Option<Seq<char>>, b: Option<Seq<char>>)
    ensures
        connection_binding(a, b) == connection_binding(b, a),
{
    let l = match a {
        Some(sdp) => fingerprint(sdp),
        None => None,
    };
    let r = match b {
        Some(sdp) => fingerprint(sdp),
        None => None,
    };
    if l is Some && r is Some {
        law_binding_is_order_independent(l->0, r->0);
    }
}

/// A host is accepted: the registration with which it answers a challenge, where
/// the signature in it verifies, puts it online under its pinned key, unless the
/// id is pinned to another.
pub proof fn law_host_registration_is_accepted(
    client: SignalClientModel,
    d: DirectoryModel,
    c: ConnectionModel,
    device_id: Seq<char>,
    name: Seq<char>,
    seed: Seq<u8>,
    public: [u8; 32],
    sig: [u8; 64],
    now: u64,
)
    requires
        public@ == ed25519_public(seed),
        sig@ == ed25519_signature(seed, payload(c.nonce, device_id)),
        ed25519_point(public@),
        ed25519_signed(public@, payload(c.nonce, device_id), sig@),
        d.pinned.dom().contains(device_id) ==> same_key(d.pinned[device_id], hex_text(public@)),
    ensures
        ({
            let answer = on_signal(client, ServerModel::Challenge { nonce: c.nonce }).1;
            let r = react(d, c, registration_for(device_id, name, d.secret, c.nonce, seed), now);
            &&& answer == (SignalActionModel::Register { nonce: c.nonce })
            &&& r.registered == Some(device_id)
            &&& r.announce && !r.close
            &&& r.after.devices.dom().contains(device_id)
            &&& r.after.devices[device_id].conn_id == c.conn_id
            &&& r.after.devices[device_id].caps.can_host
            &&& r.after.pinned.dom().contains(device_id)
            &&& same_key(r.after.pinned[device_id], hex_text(public@))
        }),
{
    law_hex_round_trip(public@);
    law_hex_round_trip(sig@);
    assert(signature_check(hex_text(public@), hex_text(sig@), c.nonce, device_id) is Ok);
}

/// Candidates reach only the session of the controller that sent them.
pub proof fn law_candidates_reach_their_session(
    c: SignalClientModel,
    from: Seq<char>,
    candidate: Seq<char>,
)
    ensures
        on_signal(c, ServerModel::Ice { from, candidate }).1 is AddCandidate <==> c.active == Some(
            from,
        ),
        on_signal(c, ServerModel::Ice { from, candidate }).0 == c,
{
}

/// A new offer is always answered, with the ICE servers the signal server last
/// advertised, and takes the place of an active session.
pub proof fn law_offer_replaces_the_session(
    c: SignalClientModel,
    ice: Seq<crate::signal::protocol::IceModel>,
    from: Seq<char>,
    sdp: Seq<char>,
)
    ensures
        ({
            let registered = on_signal(c, ServerModel::Registered { ice_servers: ice }).0;
            on_signal(registered, ServerModel::Offer { from, sdp }).1 == (
            SignalActionModel::AnswerOffer {
                from,
                sdp,
                ice: ice_to_use(ice, c.stun),
                close_active: c.active is Some,
            })
        }),
{
}

/// Only the loss of the device id to another connection ends the connection to
/// the signal server.
pub proof fn law_only_replacement_is_fatal(c: SignalClientModel, msg: ServerModel)
    ensures
        on_signal(c, msg).1 is Fail <==> (msg matches ServerModel::Error { code, .. } && code
            == ErrorCode::Replaced),
{
}

/// The wait after a number of short sessions in a row.
pub open spec fn wait_after(b: Backoff, sessions: nat) -> u64
    decreases sessions,
{
    if sessions == 0 {
        b.secs
    } else {
        let before = wait_after(b, (sessions - 1) as nat);
        if 2 * before < MAX_BACKOFF_SECS {
            (2 * before) as u64
        } else {
            MAX_BACKOFF_SECS
        }
    }
}

/// Waits never shrink while sessions stay short, and reach the cap.
pub proof fn law_backoff_grows_to_the_cap(b: Backoff, sessions: nat)
    requires
        b.wf(),
    ensures
        b.secs <= wait_after(b, sessions) <= MAX_BACKOFF_SECS,
        sessions >= 5 ==> wait_after(b, sessions) == MAX_BACKOFF_SECS,
    decreases sessions,
{
    reveal_with_fuel(wait_after, 6);
    if sessions > 0 {
        law_backoff_grows_to_the_cap(b, (sessions - 1) as nat);
    }
}

} // verus!
