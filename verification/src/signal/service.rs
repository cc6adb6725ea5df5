//! What a client of the signaling server gets, message by message.

use vstd::prelude::*;
use vstd::utf8::encode_utf8;

use super::directory::{
    announcement, carries_out, challenged, default_ice, exit, fresh, is_announcement, is_listing,
    kicks, outbox, peer_list, react, unparseable_reply, ConnectionModel, DeviceModel,
    DirectoryModel, Outgoing, OutgoingModel, ReactionModel,
};
use super::identity::{nonce_of, payload, same_key, signature_check, IdentityError};
use super::laws::{law_hex_round_trip, law_turn_username_is_unambiguous};
use super::protocol::{
    ice_view, text_opt, texts, Caps, ClientMessage, ClientModel, ErrorCode, IceModel, PeerModel,
    ServerMessage, ServerModel,
};
use super::turn::{ice_for, turn_password, turn_username, IceConfigModel};
use crate::crypto::{
    base64_text, ed25519_point, ed25519_signed, hex_bytes, hex_value, hmac_sha1, is_hex,
};
use crate::text::{decimal, hex_text};

verus! {

/// A registration that is accepted at `now`, where TURN is configured, is answered on
/// its own connection with a list that ends in the TURN entry: the configured URLs, a
/// username made of the expiry in decimal, a colon and the device id, where the expiry
/// lies `turn_ttl` after `now`, and the password of that username under the secret.
/// The STUN URLs, where there are any, come before it, without a credential.
pub proof fn law_registration_hands_out_credentials(
    d: DirectoryModel,
    c: ConnectionModel,
    msg: ClientMessage,
    now: u64,
    sends: Vec<Outgoing>,
)
    requires
        react(d, c, msg@, now).announce,
        carries_out(react(d, c, msg@, now), outbox(sends@)),
        d.ice.turn_secret is Some,
        d.ice.turn_urls.len() > 0,
    ensures
        msg matches ClientMessage::Register { device_id, .. } && exists|i: int|
            0 <= i < sends@.len() && (#[trigger] sends@[i]).conn_id == c.conn_id && (
            sends@[i].message matches ServerMessage::Registered { ice_servers } && {
                let last = ice_servers@.last();
                &&& ice_servers@.len() == if d.ice.stun_urls.len() > 0 { 2int } else { 1int }
                &&& d.ice.stun_urls.len() > 0 ==> texts(ice_servers@[0].urls@) == d.ice.stun_urls
                    && ice_servers@[0].username is None && ice_servers@[0].credential is None
                &&& texts(last.urls@) == d.ice.turn_urls
                &&& last.username matches Some(username) && username@ == decimal(
                    (now + d.ice.turn_ttl) as nat,
                ) + seq![':'] + device_id@
                &&& last.credential matches Some(password) && password@ == base64_text(
                    hmac_sha1(
                        encode_utf8(d.ice.turn_secret->0),
                        encode_utf8(
                            decimal((now + d.ice.turn_ttl) as nat) + seq![':'] + device_id@,
                        ),
                    ),
                )
            }),
{
    let r = react(d, c, msg@, now);
    let tail = choose|tail: Seq<OutgoingModel>| #[trigger]
        is_announcement(r.after.devices, tail) && outbox(sends@) == r.direct + tail;
    let i = r.direct.len() - 1;
    assert(outbox(sends@).len() == sends@.len());
    assert(outbox(sends@).len() == r.direct.len() + tail.len());
    assert(outbox(sends@)[i] == r.direct[i]);
    assert(sends@[i]@ == r.direct[i]);
    match msg {
        ClientMessage::Register { device_id, .. } => {
            let list = ice_for(d.ice, device_id@, now);
            let n = decimal((now + d.ice.turn_ttl) as nat);
            assert(n.push(':') + device_id@ =~= n + seq![':'] + device_id@);
            match sends@[i].message {
                ServerMessage::Registered { ice_servers } => {
                    assert(ice_view(ice_servers@) == list);
                    assert(ice_servers@.len() == list.len());
                    let k = ice_servers@.len() - 1;
                    assert(ice_view(ice_servers@)[k] == ice_servers@[k]@);
                    assert(ice_view(ice_servers@)[0] == ice_servers@[0]@);
                    assert(list.last() == list[k]);
                },
                _ => {},
            }
        },
        _ => {},
    }
}

/// Without a TURN secret, or without TURN URLs, an accepted registration is told of
/// the STUN URLs alone, and of nothing where there are none.
pub proof fn law_no_turn_no_credentials(
    d: DirectoryModel,
    c: ConnectionModel,
    msg: ClientMessage,
    now: u64,
)
    requires
        react(d, c, msg@, now).announce,
        d.ice.turn_secret is None || d.ice.turn_urls.len() == 0,
    ensures
        ({
            let direct = react(d, c, msg@, now).direct;
            &&& direct.len() > 0
            &&& direct.last().conn_id == c.conn_id
            &&& direct.last().message == (ServerModel::Registered {
                ice_servers: if d.ice.stun_urls.len() > 0 {
                    seq![IceModel { urls: d.ice.stun_urls, username: None, credential: None }]
                } else {
                    Seq::empty()
                },
            })
        }),
{
    match msg@ {
        ClientModel::Register { device_id, .. } => {
            let list = ice_for(d.ice, device_id, now);
            if d.ice.stun_urls.len() > 0 {
                assert(list =~= seq![
                    IceModel { urls: d.ice.stun_urls, username: None, credential: None },
                ]);
            } else {
                assert(list =~= Seq::empty());
            }
        },
        _ => {},
    }
}

/// Credentials are minted afresh: those of two registrations have the same username
/// only where they were accepted at the same time for the same device.
pub proof fn law_credentials_are_fresh(
    ice: IceConfigModel,
    id1: Seq<char>,
    now1: u64,
    id2: Seq<char>,
    now2: u64,
)
    requires
        ice.turn_secret is Some,
        ice.turn_urls.len() > 0,
        ice_for(ice, id1, now1).last().username == ice_for(ice, id2, now2).last().username,
    ensures
        id1 == id2,
        now1 == now2,
{
    let l1 = ice_for(ice, id1, now1);
    let l2 = ice_for(ice, id2, now2);
    let u1 = turn_username((now1 + ice.turn_ttl) as nat, id1);
    let u2 = turn_username((now2 + ice.turn_ttl) as nat, id2);
    assert(l1.last().username == Some(u1));
    assert(l2.last().username == Some(u2));
    law_turn_username_is_unambiguous(
        (now1 + ice.turn_ttl) as nat,
        id1,
        (now2 + ice.turn_ttl) as nat,
        id2,
    );
}

/// A minted credential: the expiry in decimal, a colon and the user; and the base64
/// form of the HMAC-SHA1 tag of that username under the static secret.
pub proof fn law_turn_credential(expiry: nat, user: Seq<char>, secret: Seq<char>)
    ensures
        turn_username(expiry, user) == decimal(expiry) + seq![':'] + user,
        turn_password(secret, turn_username(expiry, user)) == base64_text(
            hmac_sha1(
                encode_utf8(secret),
                encode_utf8(decimal(expiry) + seq![':'] + user),
            ),
        ),
{
    assert(turn_username(expiry, user) =~= decimal(expiry) + seq![':'] + user);
}

/// Who may register: whoever knows the secret and, if it presents a key and a
/// signature, presents good ones that the pin of the id does not contradict; without
/// them, only one that does not host, for an id that is not pinned. The device is then
/// online on this connection, as it named itself and with the capabilities it stated;
/// a key that came with it is pinned where the id was not. Nothing else changes.
pub proof fn law_who_may_register(
    d: DirectoryModel,
    c: ConnectionModel,
    device_id: Seq<char>,
    name: Seq<char>,
    caps: Caps,
    auth: Seq<char>,
    pubkey: Option<Seq<char>>,
    sig: Option<Seq<char>>,
    now: u64,
)
    ensures
        ({
            let r = react(
                d,
                c,
                ClientModel::Register { device_id, name, caps, auth, pubkey, sig },
                now,
            );
            let signed = pubkey is Some && sig is Some;
            let pin = d.pinned.dom().contains(device_id);
            let accepted = auth == d.secret && if signed {
                signature_check(pubkey->0, sig->0, c.nonce, device_id) is Ok && (!pin || same_key(
                    d.pinned[device_id],
                    pubkey->0,
                ))
            } else {
                !caps.can_host && !pin
            };
            &&& r.announce == accepted
            &&& r.close == !accepted
            &&& accepted ==> {
                &&& r.registered == Some(device_id)
                &&& r.after.devices == d.devices.insert(
                    device_id,
                    DeviceModel { name, caps, conn_id: c.conn_id },
                )
                &&& r.after.pinned == if signed && !pin {
                    d.pinned.insert(device_id, pubkey->0)
                } else {
                    d.pinned
                }
                &&& r.after.secret == d.secret
                &&& r.after.ice == d.ice
                &&& r.after.next_conn == d.next_conn
                &&& r.direct.len() == if d.devices.dom().contains(device_id) { 2int } else { 1int }
            }
            &&& !accepted ==> r.after == d && r.registered == c.registered && r.direct.len() == 1
                && r.direct[0].conn_id == c.conn_id && r.direct[0].message is Error
        }),
{
    let r = react(d, c, ClientModel::Register { device_id, name, caps, auth, pubkey, sig }, now);
    if r.close {
        assert(r.after =~= d);
    }
}

/// What a refused client reads.
pub proof fn law_refusals_in_words(
    d: DirectoryModel,
    c: ConnectionModel,
    device_id: Seq<char>,
    name: Seq<char>,
    caps: Caps,
    auth: Seq<char>,
    pubkey: Option<Seq<char>>,
    sig: Option<Seq<char>>,
    now: u64,
)
    ensures
        ({
            let r = react(
                d,
                c,
                ClientModel::Register { device_id, name, caps, auth, pubkey, sig },
                now,
            );
            let known = d.pinned.dom().contains(device_id);
            let signed = pubkey is Some && sig is Some;
            let check = signature_check(pubkey->0, sig->0, c.nonce, device_id);
            let told = |code: ErrorCode, message: Seq<char>|
                r.direct == seq![
                    OutgoingModel {
                        conn_id: c.conn_id,
                        message: ServerModel::Error { code, message },
                    },
                ];
            &&& auth != d.secret ==> told(ErrorCode::BadAuth, "bad secret"@)
            &&& auth == d.secret && !signed && (known || caps.can_host) ==> told(
                ErrorCode::IdentityRequired,
                "this device id requires a signed registration"@,
            )
            &&& auth == d.secret && signed ==> match check {
                Err(IdentityError::Malformed(what)) => told(
                    ErrorCode::BadIdentity,
                    "malformed identity: "@ + what@,
                ),
                Err(IdentityError::BadSignature) => told(
                    ErrorCode::BadIdentity,
                    "registration signature did not verify"@,
                ),
                Err(_) => false,
                Ok(()) => known && !same_key(d.pinned[device_id], pubkey->0) ==> told(
                    ErrorCode::IdentityMismatch,
                    "device id is pinned to a different identity key; refusing to replace it"@,
                ),
            }
        }),
{
}

/// The connection that a device was online on is told, ahead of the newer one's
/// welcome, that it was replaced; the newer one alone is welcomed.
pub proof fn law_replaced_then_welcome(
    d: DirectoryModel,
    c: ConnectionModel,
    msg: ClientMessage,
    now: u64,
)
    requires
        react(d, c, msg@, now).announce,
    ensures
        ({
            let direct = react(d, c, msg@, now).direct;
            &&& msg matches ClientMessage::Register { device_id, .. }
            &&& direct.last().conn_id == c.conn_id
            &&& direct.last().message is Registered
            &&& d.devices.dom().contains(device_id@) ==> direct.len() == 2 && direct[0] == (
            OutgoingModel {
                conn_id: d.devices[device_id@].conn_id,
                message: ServerModel::Error {
                    code: ErrorCode::Replaced,
                    message: "a newer connection registered this device id"@,
                },
            })
            &&& !d.devices.dom().contains(device_id@) ==> direct.len() == 1
        }),
{
}

/// What a signature must be: 64 hexadecimal digits of a key that is a point of the
/// curve, 128 of a signature, good under that key for the context
/// `tether-signal-register-v1`, a zero byte, the nonce, a zero byte and the device id.
pub proof fn law_good_signatures(
    pubkey: Seq<char>,
    sig: Seq<char>,
    nonce: Seq<char>,
    device_id: Seq<char>,
)
    ensures
        signature_check(pubkey, sig, nonce, device_id) is Ok <==> {
            &&& is_hex(pubkey) && pubkey.len() == 64
            &&& is_hex(sig) && sig.len() == 128
            &&& ed25519_point(hex_bytes(pubkey))
            &&& ed25519_signed(
                hex_bytes(pubkey),
                encode_utf8("tether-signal-register-v1"@) + seq![0u8] + encode_utf8(nonce) + seq![
                    0u8,
                ] + encode_utf8(device_id),
                hex_bytes(sig),
            )
        },
{
    assert(payload(nonce, device_id) =~= encode_utf8("tether-signal-register-v1"@) + seq![0u8]
        + encode_utf8(nonce) + seq![0u8] + encode_utf8(device_id));
}

/// The first thing wrong with a key and its signature is what is reported: the key's
/// digits, its size, its point, then the signature's digits, its size, and last that
/// it does not verify.
pub proof fn law_bad_signatures(
    pubkey: Seq<char>,
    sig: Seq<char>,
    nonce: Seq<char>,
    device_id: Seq<char>,
)
    ensures
        ({
            let check = signature_check(pubkey, sig, nonce, device_id);
            let bad = |what: &'static str|
                check == Err::<(), IdentityError>(IdentityError::Malformed(what));
            let key_ok = is_hex(pubkey) && pubkey.len() == 64;
            let point = key_ok && ed25519_point(hex_bytes(pubkey));
            &&& !is_hex(pubkey) ==> bad("pubkey is not hex")
            &&& is_hex(pubkey) && pubkey.len() != 64 ==> bad("pubkey is not 32 bytes")
            &&& key_ok && !point ==> bad("pubkey is not a valid Ed25519 point")
            &&& point && !is_hex(sig) ==> bad("signature is not hex")
            &&& point && is_hex(sig) && sig.len() != 128 ==> bad("signature is not 64 bytes")
            &&& point && is_hex(sig) && sig.len() == 128 && !(check is Ok) ==> check == Err::<
                (),
                IdentityError,
            >(IdentityError::BadSignature)
        }),
{
}

/// What becomes of an offer of a registered device: refused to itself where it cannot
/// control, where the target is not online, where the target cannot host, in this
/// order; relayed otherwise, to the target's connection, from the sender's id, with
/// the description as it is.
pub proof fn law_offers_are_settled(
    d: DirectoryModel,
    c: ConnectionModel,
    target: String,
    sdp: String,
    now: u64,
)
    requires
        c.registered is Some,
    ensures
        ({
            let r = react(d, c, ClientMessage::Offer { target, sdp }@, now);
            let from = c.registered->0;
            let told = |code: ErrorCode, message: Seq<char>|
                r.direct == seq![
                    OutgoingModel {
                        conn_id: c.conn_id,
                        message: ServerModel::Error { code, message },
                    },
                ];
            let may = d.devices.dom().contains(from) && d.devices[from].caps.can_control;
            let online = d.devices.dom().contains(target@);
            &&& r.after == d && !r.announce && !r.close
            &&& !may ==> told(ErrorCode::NotController, "this device cannot control"@)
            &&& may && !online ==> told(ErrorCode::UnknownTarget, target@ + " is not online"@)
            &&& may && online && !d.devices[target@].caps.can_host ==> told(
                ErrorCode::TargetNotHost,
                target@ + " cannot host"@,
            )
            &&& may && online && d.devices[target@].caps.can_host ==> r.direct == seq![
                OutgoingModel {
                    conn_id: d.devices[target@].conn_id,
                    message: ServerModel::Offer { from, sdp: sdp@ },
                },
            ]
        }),
{
}

/// What becomes of an answer and of a candidate of a registered device: relayed to the
/// target's connection, from the sender's id, as they are; an answer for a device that
/// is not online is refused, a candidate for one is dropped.
pub proof fn law_answers_and_candidates_are_settled(
    d: DirectoryModel,
    c: ConnectionModel,
    target: String,
    text: String,
    now: u64,
)
    requires
        c.registered is Some,
    ensures
        ({
            let a = react(d, c, ClientMessage::Answer { target, sdp: text }@, now);
            let i = react(d, c, ClientMessage::Ice { target, candidate: text }@, now);
            let from = c.registered->0;
            &&& a.after == d && !a.announce && !a.close
            &&& i.after == d && !i.announce && !i.close
            &&& if d.devices.dom().contains(target@) {
                &&& a.direct == seq![
                    OutgoingModel {
                        conn_id: d.devices[target@].conn_id,
                        message: ServerModel::Answer { from, sdp: text@ },
                    },
                ]
                &&& i.direct == seq![
                    OutgoingModel {
                        conn_id: d.devices[target@].conn_id,
                        message: ServerModel::Ice { from, candidate: text@ },
                    },
                ]
            } else {
                &&& a.direct == seq![
                    OutgoingModel {
                        conn_id: c.conn_id,
                        message: ServerModel::Error {
                            code: ErrorCode::UnknownTarget,
                            message: target@ + " is not online"@,
                        },
                    },
                ]
                &&& i.direct == Seq::<OutgoingModel>::empty()
            }
        }),
{
}

/// An announcement is made of the directory and nothing else: after the messages to
/// single connections every device online gets one message, each lists every device
/// online once, and only those, with the name and the capabilities it has.
pub proof fn law_presence_is_exact(
    r: ReactionModel,
    sends: Seq<OutgoingModel>,
    i: int,
    j: int,
)
    requires
        r.announce,
        carries_out(r, sends),
        r.direct.len() <= i < sends.len(),
    ensures
        r.after.devices.dom().finite(),
        sends.len() == r.direct.len() + r.after.devices.dom().len(),
        sends.take(r.direct.len() as int) == r.direct,
        exists|to: Seq<char>| #[trigger]
            r.after.devices.dom().contains(to) && sends[i].conn_id == r.after.devices[to].conn_id,
        sends[i].message matches ServerModel::Peers { peers } && {
            &&& peers.len() == r.after.devices.dom().len()
            &&& peers.no_duplicates()
            &&& 0 <= j < peers.len() ==> {
                &&& r.after.devices.dom().contains(peers[j].device_id)
                &&& peers[j].name == r.after.devices[peers[j].device_id].name
                &&& peers[j].caps == r.after.devices[peers[j].device_id].caps
            }
        },
{
    let devices = r.after.devices;
    let tail = choose|tail: Seq<OutgoingModel>| #[trigger]
        is_announcement(devices, tail) && sends == r.direct + tail;
    let ids = choose|ids: Seq<Seq<char>>|
        is_listing(ids, devices) && tail == #[trigger] announcement(devices, ids);
    ids.unique_seq_to_set();
    let k = i - r.direct.len();
    assert(sends[i] == tail[k]);
    assert(ids.to_set().contains(ids[k]));
    assert(sends.take(r.direct.len() as int) =~= r.direct);
    let peers = peer_list(devices, ids);
    assert forall|x: int, y: int| 0 <= x < peers.len() && 0 <= y < peers.len() && x != y implies
        peers[x] != peers[y] by {
        assert(ids[x] != ids[y]);
    }
    if 0 <= j < peers.len() {
        assert(ids.to_set().contains(ids[j]));
    }
}

/// Every connection gets a number of its own and is challenged with the nonce that its
/// signature is checked against; nothing is registered on it yet.
pub proof fn law_connections_are_challenged(d: DirectoryModel, nonce: Seq<char>)
    requires
        d.next_conn < u64::MAX,
    ensures
        ({
            let (after, conn, told) = challenged(d, nonce);
            &&& conn.conn_id == d.next_conn
            &&& conn.nonce == nonce
            &&& conn.registered is None
            &&& told == (ServerModel::Challenge { nonce })
            &&& after == DirectoryModel { next_conn: after.next_conn, ..d }
            &&& after.next_conn > conn.conn_id
            &&& challenged(after, nonce).1.conn_id == conn.conn_id + 1
        }),
{
}

/// A server starts with nobody online, its pins as they were stored, and counts
/// connections from 1; where no ICE servers are given it advertises one STUN server.
pub proof fn law_servers_start_empty(
    secret: Seq<char>,
    ice: IceConfigModel,
    pinned: Map<Seq<char>, Seq<char>>,
    id: Seq<char>,
    now: u64,
)
    ensures
        !fresh(secret, ice, pinned).devices.dom().contains(id),
        fresh(secret, ice, pinned).secret == secret,
        fresh(secret, ice, pinned).ice == ice,
        fresh(secret, ice, pinned).pinned == pinned,
        fresh(secret, ice, pinned).next_conn == 1,
        ice_for(default_ice(), id, now) == seq![
            IceModel {
                urls: seq!["stun:stun.l.google.com:19302"@],
                username: None,
                credential: None,
            },
        ],
{
    assert(ice_for(default_ice(), id, now) =~= seq![
        IceModel {
            urls: seq!["stun:stun.l.google.com:19302"@],
            username: None,
            credential: None,
        },
    ]);
}

/// Of all messages only the one that says so tells a client that it was replaced.
pub proof fn law_only_replaced_kicks(m: ServerMessage)
    ensures
        kicks(m@) <==> (m matches ServerMessage::Error { code, .. } && code == ErrorCode::Replaced),
{
}

/// The messages stand for their own fields.
pub proof fn law_messages_hold_their_fields(m: ServerMessage, q: ClientMessage)
    ensures
        match m {
            ServerMessage::Challenge { nonce } => m@ == (ServerModel::Challenge { nonce: nonce@ }),
            ServerMessage::Registered { ice_servers } => m@ matches ServerModel::Registered {
                ice_servers: list,
            } && list.len() == ice_servers@.len() && forall|i: int|
                0 <= i < list.len() ==> #[trigger] list[i] == (IceModel {
                    urls: texts(ice_servers@[i].urls@),
                    username: text_opt(ice_servers@[i].username),
                    credential: text_opt(ice_servers@[i].credential),
                }),
            ServerMessage::Peers { peers } => m@ matches ServerModel::Peers { peers: list }
                && list.len() == peers@.len() && forall|i: int|
                0 <= i < list.len() ==> #[trigger] list[i] == (PeerModel {
                    device_id: peers@[i].device_id@,
                    name: peers@[i].name@,
                    caps: peers@[i].caps,
                }),
            ServerMessage::Offer { from, sdp } => m@ == (ServerModel::Offer {
                from: from@,
                sdp: sdp@,
            }),
            ServerMessage::Answer { from, sdp } => m@ == (ServerModel::Answer {
                from: from@,
                sdp: sdp@,
            }),
            ServerMessage::Ice { from, candidate } => m@ == (ServerModel::Ice {
                from: from@,
                candidate: candidate@,
            }),
            ServerMessage::Error { code, message } => m@ == (ServerModel::Error {
                code,
                message: message@,
            }),
        },
        match q {
            ClientMessage::Register { device_id, name, caps, auth, pubkey, sig } => q@ == (
            ClientModel::Register {
                device_id: device_id@,
                name: name@,
                caps,
                auth: auth@,
                pubkey: match pubkey {
                    Some(key) => Some(key@),
                    None => None,
                },
                sig: match sig {
                    Some(s) => Some(s@),
                    None => None,
                },
            }),
            ClientMessage::Offer { target, sdp } => q@ == (ClientModel::Offer {
                target: target@,
                sdp: sdp@,
            }),
            ClientMessage::Answer { target, sdp } => q@ == (ClientModel::Answer {
                target: target@,
                sdp: sdp@,
            }),
            ClientMessage::Ice { target, candidate } => q@ == (ClientModel::Ice {
                target: target@,
                candidate: candidate@,
            }),
        },
{
}

/// The end of a connection takes its own device, and no other, out of the directory, and
/// the rest are told; where the device has moved on, or nothing was registered, nothing
/// changes and nobody is told. The connection is closed either way.
pub proof fn law_exits_are_settled(d: DirectoryModel, c: ConnectionModel)
    ensures
        ({
            let r = exit(d, c);
            let ours = c.registered is Some && d.devices.dom().contains(c.registered->0)
                && d.devices[c.registered->0].conn_id == c.conn_id;
            &&& r.close
            &&& r.direct == Seq::<OutgoingModel>::empty()
            &&& r.announce == ours
            &&& r.after.devices == if ours {
                d.devices.remove(c.registered->0)
            } else {
                d.devices
            }
            &&& r.after.secret == d.secret && r.after.ice == d.ice
            &&& r.after.pinned == d.pinned && r.after.next_conn == d.next_conn
        }),
{
}

/// A client whose text is no message is told so on its own connection, with the reason.
pub proof fn law_unparseable_text_is_answered(conn_id: u64, reason: Seq<char>)
    ensures
        unparseable_reply(conn_id, reason) == (OutgoingModel {
            conn_id,
            message: ServerModel::Error {
                code: ErrorCode::BadMessage,
                message: "unparseable message: "@ + reason,
            },
        }),
{
}

/// Nonces spell their bytes: two lower-case hexadecimal digits each, in order, so 32 bytes
/// make 64 characters and different bytes different nonces.
pub proof fn law_nonces_spell_their_bytes(a: Seq<u8>, b: Seq<u8>)
    ensures
        nonce_of(a).len() == 2 * a.len(),
        nonce_of(a) == hex_text(a),
        nonce_of(a) == nonce_of(b) ==> a == b,
{
    law_hex_round_trip(a);
    law_hex_round_trip(b);
}

/// Two texts give the same key where they are the same text, or are hexadecimal and of
/// the same digits, whatever the case of their letters.
pub proof fn law_same_keys(a: Seq<char>, b: Seq<char>)
    ensures
        same_key(a, a),
        same_key(a, b) == same_key(b, a),
        !is_hex(a) || !is_hex(b) ==> (same_key(a, b) <==> a == b),
        is_hex(a) && is_hex(b) ==> (same_key(a, b) <==> a.len() == b.len() && forall|i: int|
            0 <= i < a.len() ==> hex_value(#[trigger] a[i]) == hex_value(b[i])),
{
    if is_hex(a) && is_hex(b) {
        if a.len() == b.len() && forall|i: int|
            0 <= i < a.len() ==> hex_value(#[trigger] a[i]) == hex_value(b[i]) {
            assert(hex_bytes(a) =~= hex_bytes(b));
        }
        if hex_bytes(a) == hex_bytes(b) {
            assert(a.len() == 2 * hex_bytes(a).len());
            assert(b.len() == 2 * hex_bytes(b).len());
            assert forall|i: int| 0 <= i < a.len() implies hex_value(#[trigger] a[i]) == hex_value(
                b[i],
            ) by {
                let k = i / 2;
                assert(hex_value(a[2 * k]) is Some && hex_value(a[2 * k + 1]) is Some);
                assert(hex_value(b[2 * k]) is Some && hex_value(b[2 * k + 1]) is Some);
                assert(hex_bytes(a)[k] == hex_bytes(b)[k]);
                assert(hex_bytes(a)[k] == 16 * hex_value(a[2 * k])->0 + hex_value(a[2 * k + 1])->0);
                assert(hex_bytes(b)[k] == 16 * hex_value(b[2 * k])->0 + hex_value(b[2 * k + 1])->0);
            }
        }
    }
}

} // verus!
