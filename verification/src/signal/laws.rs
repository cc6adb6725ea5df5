//! What the signaling server promises.

use vstd::prelude::*;
use vstd::utf8::encode_utf8;

use super::directory::{
    announcement, carries_out, error_to, exit, fresh, is_announcement, is_listing,
    owns_registration, peer_list, react, ConnectionModel, DeviceModel, DirectoryModel,
    OutgoingModel, ReactionModel,
};
use super::identity::{
    decided, payload, presented_for, same_key, signature_check, IdentityError, Presented,
    REGISTER_CONTEXT,
};
use super::protocol::{Caps, ClientModel, ErrorCode, PeerModel, ServerModel};
use super::turn::turn_username;
use crate::crypto::{hex_bytes, hex_value, is_hex};
use crate::text::{
    decimal, digit, hex_text, lemma_decimal_digits, lemma_decimal_injective,
    lemma_encoding_injective,
};

verus! {

/// The signed bytes tell nonce and device id apart: two registrations sign the
/// same bytes only if they agree on both. A nonce holds no zero byte.
pub proof fn law_payload_is_unambiguous(
    nonce1: Seq<char>,
    id1: Seq<char>,
    nonce2: Seq<char>,
    id2: Seq<char>,
)
    requires
        !encode_utf8(nonce1).contains(0),
        !encode_utf8(nonce2).contains(0),
        payload(nonce1, id1) == payload(nonce2, id2),
    ensures
        nonce1 == nonce2,
        id1 == id2,
{
    let c = encode_utf8(REGISTER_CONTEXT@).len() as int + 1;
    let n1 = encode_utf8(nonce1);
    let n2 = encode_utf8(nonce2);
    let p1 = payload(nonce1, id1);
    let p2 = payload(nonce2, id2);
    assert(p1[c + n1.len()] == 0);
    assert(p2[c + n2.len()] == 0);
    if n1.len() < n2.len() {
        assert(p2[c + n1.len()] == n2[n1.len() as int]);
        assert(n2.contains(0));
    }
    if n2.len() < n1.len() {
        assert(p1[c + n2.len()] == n1[n2.len() as int]);
        assert(n1.contains(0));
    }
    assert(p1.subrange(c, c + n1.len()) =~= n1);
    assert(p2.subrange(c, c + n2.len()) =~= n2);
    assert(p1.skip(c + n1.len() + 1) =~= encode_utf8(id1));
    assert(p2.skip(c + n2.len() + 1) =~= encode_utf8(id2));
    lemma_encoding_injective(nonce1, nonce2);
    lemma_encoding_injective(id1, id2);
}

/// The nonces the server hands out, being hexadecimal, hold no zero byte.
pub proof fn law_nonce_holds_no_zero_byte(bytes: Seq<u8>)
    ensures
        !encode_utf8(hex_text(bytes)).contains(0),
{
    let s = hex_text(bytes);
    assert forall|i: int| 0 <= i < s.len() implies '0' <= #[trigger] s[i] <= 'f' by {
        let b = bytes[i / 2] as int;
        assert(0 <= b / 16 < 16 && 0 <= b % 16 < 16);
        let d = if i % 2 == 0 {
            b / 16
        } else {
            b % 16
        };
        assert(s[i] == digit(d));
        assert(digit(d) as int == if d < 10 {
            48 + d
        } else {
            87 + d
        });
    }
    assert(vstd::utf8::is_ascii_chars(s));
    vstd::utf8::is_ascii_chars_encode_utf8(s);
    assert forall|i: int| 0 <= i < encode_utf8(s).len() implies encode_utf8(s)[i] != 0 by {
        assert(s[i] as u8 == encode_utf8(s)[i]);
        assert('0' <= s[i] <= 'f');
    }
}

/// The first key presented for a fresh id, with a good signature, is pinned,
/// and the same key is accepted ever after, whatever its role.
pub proof fn law_first_use_pins(
    pinned: Map<Seq<char>, Seq<char>>,
    device_id: Seq<char>,
    pubkey: Seq<char>,
    host1: bool,
    host2: bool,
)
    requires
        !pinned.dom().contains(device_id),
    ensures
        ({
            let good = Some(Presented { pubkey, checked: Ok(()) });
            let (after, verdict) = decided(pinned, device_id, good, host1);
            &&& verdict is Ok
            &&& after == pinned.insert(device_id, pubkey)
            &&& decided(after, device_id, good, host2) == (after, Ok::<(), IdentityError>(()))
        }),
{
}

/// For a pinned id nothing but the pinned key with a good signature is
/// accepted: another key is refused, and so is leaving the identity out. The
/// pins stay as they are.
pub proof fn law_pin_holds(
    pinned: Map<Seq<char>, Seq<char>>,
    device_id: Seq<char>,
    presented: Option<Presented>,
    host: bool,
)
    requires
        pinned.dom().contains(device_id),
    ensures
        decided(pinned, device_id, presented, host).0 == pinned,
        decided(pinned, device_id, presented, host).1 is Ok <==> (presented is Some
            && presented->0.checked is Ok && same_key(pinned[device_id], presented->0.pubkey)),
        presented is None ==> decided(pinned, device_id, presented, host).1 == Err::<
            (),
            IdentityError,
        >(IdentityError::Missing),
        (presented is Some && presented->0.checked is Ok && !same_key(
            pinned[device_id],
            presented->0.pubkey,
        )) ==> decided(pinned, device_id, presented, host).1 == Err::<
            (),
            IdentityError,
        >(IdentityError::Mismatch),
{
}

/// A host is never accepted without an identity; a controller with a fresh id
/// is, and is not pinned.
pub proof fn law_identity_is_owed_by_hosts(
    pinned: Map<Seq<char>, Seq<char>>,
    device_id: Seq<char>,
)
    ensures
        decided(pinned, device_id, None, true) == (
            pinned,
            Err::<(), IdentityError>(IdentityError::Missing),
        ),
        !pinned.dom().contains(device_id) ==> decided(pinned, device_id, None, false) == (
            pinned,
            Ok::<(), IdentityError>(()),
        ),
{
}

/// A refused identity pins nothing.
pub proof fn law_refusal_pins_nothing(
    pinned: Map<Seq<char>, Seq<char>>,
    device_id: Seq<char>,
    presented: Option<Presented>,
    host: bool,
)
    ensures
        decided(pinned, device_id, presented, host).1 is Err ==> decided(
            pinned,
            device_id,
            presented,
            host,
        ).0 == pinned,
{
}

/// No message ever changes or drops a pin.
pub proof fn law_pins_are_kept(
    d: DirectoryModel,
    c: ConnectionModel,
    msg: ClientModel,
    now: u64,
    device_id: Seq<char>,
)
    requires
        d.pinned.dom().contains(device_id),
    ensures
        react(d, c, msg, now).after.pinned.dom().contains(device_id),
        react(d, c, msg, now).after.pinned[device_id] == d.pinned[device_id],
{
}

/// Nor does the end of a connection.
pub proof fn law_exit_keeps_pins(d: DirectoryModel, c: ConnectionModel)
    ensures
        exit(d, c).after.pinned == d.pinned,
{
}

/// A peer past the shared secret cannot evict a device whose id is pinned to
/// another key: unless it presents that very key with a signature that verifies
/// for this connection, the directory stays as it is, it alone hears of the
/// refusal, and its connection is closed.
pub proof fn law_squatter_cannot_evict(
    d: DirectoryModel,
    c: ConnectionModel,
    device_id: Seq<char>,
    name: Seq<char>,
    caps: Caps,
    auth: Seq<char>,
    pubkey: Option<Seq<char>>,
    sig: Option<Seq<char>>,
    now: u64,
)
    requires
        d.pinned.dom().contains(device_id),
        !(pubkey is Some && same_key(d.pinned[device_id], pubkey->0) && sig is Some
            && signature_check(
            pubkey->0,
            sig->0,
            c.nonce,
            device_id,
        ) is Ok),
    ensures
        ({
            let r = react(
                d,
                c,
                ClientModel::Register { device_id, name, caps, auth, pubkey, sig },
                now,
            );
            &&& r.after == d
            &&& r.registered == c.registered
            &&& r.close && !r.announce
            &&& r.direct.len() == 1 && r.direct[0].conn_id == c.conn_id
                && r.direct[0].message is Error
        }),
{
    let r = react(d, c, ClientModel::Register { device_id, name, caps, auth, pubkey, sig }, now);
    if auth == d.secret {
        let v = decided(
            d.pinned,
            device_id,
            presented_for(pubkey, sig, c.nonce, device_id),
            caps.can_host,
        );
        assert(v.1 is Err && v.0 == d.pinned);
        assert(r.after =~= d);
    }
}

/// The codes of the refusals: a different key, no key for a pinned id or a
/// host, and a signature that does not verify for this connection's nonce.
pub proof fn law_refusal_codes(
    d: DirectoryModel,
    c: ConnectionModel,
    device_id: Seq<char>,
    name: Seq<char>,
    caps: Caps,
    pubkey: Option<Seq<char>>,
    sig: Option<Seq<char>>,
    now: u64,
)
    ensures
        ({
            let r = react(
                d,
                c,
                ClientModel::Register { device_id, name, caps, auth: d.secret, pubkey, sig },
                now,
            );
            let known = d.pinned.dom().contains(device_id);
            let told = |code: ErrorCode|
                r.direct.len() == 1 && (r.direct[0].message matches ServerModel::Error {
                    code: sent,
                    ..
                } && sent == code);
            &&& (pubkey is None || sig is None) && (known || caps.can_host) ==> told(
                ErrorCode::IdentityRequired,
            )
            &&& pubkey is Some && sig is Some && signature_check(
                pubkey->0,
                sig->0,
                c.nonce,
                device_id,
            ) is Err ==> told(ErrorCode::BadIdentity)
            &&& pubkey is Some && sig is Some && signature_check(
                pubkey->0,
                sig->0,
                c.nonce,
                device_id,
            ) is Ok && known && !same_key(d.pinned[device_id], pubkey->0) ==> told(
                ErrorCode::IdentityMismatch,
            )
        }),
{
    if pubkey is Some && sig is Some {
        let e = signature_check(pubkey->0, sig->0, c.nonce, device_id);
        if e is Err {
            assert(e->Err_0 is Malformed || e->Err_0 is BadSignature);
        }
    }
}

/// A wrong secret gets an error and a closed connection, and changes nothing.
pub proof fn law_bad_secret_is_refused(
    d: DirectoryModel,
    c: ConnectionModel,
    device_id: Seq<char>,
    name: Seq<char>,
    caps: Caps,
    auth: Seq<char>,
    pubkey: Option<Seq<char>>,
    sig: Option<Seq<char>>,
    now: u64,
)
    requires
        auth != d.secret,
    ensures
        react(d, c, ClientModel::Register { device_id, name, caps, auth, pubkey, sig }, now) == (
        ReactionModel {
            after: d,
            registered: c.registered,
            direct: seq![error_to(c.conn_id, ErrorCode::BadAuth, "bad secret"@)],
            announce: false,
            close: true,
        }),
{
}

/// Before it has registered, a connection reaches nobody: whatever it sends but
/// a registration comes back as an error, and nothing changes.
pub proof fn law_registration_comes_first(
    d: DirectoryModel,
    c: ConnectionModel,
    msg: ClientModel,
    now: u64,
)
    requires
        c.registered is None,
        !(msg is Register),
    ensures
        react(d, c, msg, now) == (ReactionModel {
            after: d,
            registered: None,
            direct: seq![error_to(c.conn_id, ErrorCode::NotRegistered, "register first"@)],
            announce: false,
            close: false,
        }),
{
}

/// An offer is relayed only from a device that can control to a device that can
/// host, unchanged, under the sender's registered id, to the connection that
/// the target is online on.
pub proof fn law_offers_go_from_controllers_to_hosts(
    d: DirectoryModel,
    c: ConnectionModel,
    msg: ClientModel,
    now: u64,
    i: int,
)
    requires
        0 <= i < react(d, c, msg, now).direct.len(),
        react(d, c, msg, now).direct[i].message is Offer,
    ensures
        ({
            let o = react(d, c, msg, now).direct[i];
            &&& msg matches ClientModel::Offer { target, sdp }
            &&& c.registered is Some
            &&& o.message == (ServerModel::Offer { from: c.registered->0, sdp })
            &&& d.devices.dom().contains(c.registered->0)
            &&& d.devices[c.registered->0].caps.can_control
            &&& d.devices.dom().contains(target)
            &&& d.devices[target].caps.can_host
            &&& o.conn_id == d.devices[target].conn_id
        }),
{
}

/// Between two devices online everything a session needs is relayed verbatim:
/// the offer one way, the answer back, candidates either way.
pub proof fn law_relay(
    d: DirectoryModel,
    controller: ConnectionModel,
    host: ConnectionModel,
    text: Seq<char>,
    now: u64,
)
    requires
        controller.registered is Some,
        host.registered is Some,
        d.devices.dom().contains(controller.registered->0),
        d.devices.dom().contains(host.registered->0),
        d.devices[controller.registered->0].conn_id == controller.conn_id,
        d.devices[host.registered->0].conn_id == host.conn_id,
        d.devices[controller.registered->0].caps.can_control,
        d.devices[host.registered->0].caps.can_host,
    ensures
        ({
            let ctl = controller.registered->0;
            let mac = host.registered->0;
            &&& react(d, controller, ClientModel::Offer { target: mac, sdp: text }, now).direct
                == seq![
                OutgoingModel {
                    conn_id: host.conn_id,
                    message: ServerModel::Offer { from: ctl, sdp: text },
                },
            ]
            &&& react(d, host, ClientModel::Answer { target: ctl, sdp: text }, now).direct == seq![
                OutgoingModel {
                    conn_id: controller.conn_id,
                    message: ServerModel::Answer { from: mac, sdp: text },
                },
            ]
            &&& react(d, controller, ClientModel::Ice { target: mac, candidate: text }, now).direct
                == seq![
                OutgoingModel {
                    conn_id: host.conn_id,
                    message: ServerModel::Ice { from: ctl, candidate: text },
                },
            ]
            &&& react(d, host, ClientModel::Ice { target: ctl, candidate: text }, now).direct
                == seq![
                OutgoingModel {
                    conn_id: controller.conn_id,
                    message: ServerModel::Ice { from: mac, candidate: text },
                },
            ]
        }),
{
}

/// Only registrations and exits change the directory.
pub proof fn law_relaying_changes_nothing(
    d: DirectoryModel,
    c: ConnectionModel,
    msg: ClientModel,
    now: u64,
)
    requires
        !(msg is Register),
    ensures
        react(d, c, msg, now).after == d,
        react(d, c, msg, now).registered == c.registered,
        !react(d, c, msg, now).close,
{
}

/// After an accepted registration the device is online on this connection, and
/// the connection that held it before, if any, is told that it was replaced.
pub proof fn law_reregistration_replaces(
    d: DirectoryModel,
    c: ConnectionModel,
    msg: ClientModel,
    now: u64,
)
    requires
        react(d, c, msg, now).announce,
    ensures
        ({
            let r = react(d, c, msg, now);
            &&& msg matches ClientModel::Register { device_id, caps, .. }
            &&& r.registered == Some(device_id)
            &&& r.after.devices.dom().contains(device_id)
            &&& r.after.devices[device_id].conn_id == c.conn_id
            &&& r.after.devices[device_id].caps == caps
            &&& forall|other: Seq<char>|
                other != device_id ==> (r.after.devices.dom().contains(other)
                    <==> d.devices.dom().contains(other)) && (d.devices.dom().contains(other)
                    ==> #[trigger] r.after.devices[other] == d.devices[other])
            &&& d.devices.dom().contains(device_id) ==> r.direct[0] == error_to(
                d.devices[device_id].conn_id,
                ErrorCode::Replaced,
                "a newer connection registered this device id"@,
            )
        }),
{
}

/// The exit of a connection whose device has moved to a newer one changes
/// nothing and is announced to nobody.
pub proof fn law_stale_exit_is_harmless(d: DirectoryModel, c: ConnectionModel)
    requires
        c.registered is Some,
        d.devices.dom().contains(c.registered->0),
        d.devices[c.registered->0].conn_id != c.conn_id,
    ensures
        exit(d, c).after == d,
        exit(d, c).direct.len() == 0,
        !exit(d, c).announce,
{
}

/// A device that registered and was not replaced goes offline with its
/// connection; the others stay.
pub proof fn law_exit_takes_the_device_offline(
    d: DirectoryModel,
    c: ConnectionModel,
    other: Seq<char>,
)
    requires
        owns_registration(d, c),
    ensures
        !exit(d, c).after.devices.dom().contains(c.registered->0),
        other != c.registered->0 ==> exit(d, c).after.devices.dom().contains(other)
            == d.devices.dom().contains(other),
        exit(d, c).announce,
{
}

/// Every host online is pinned.
pub open spec fn hosts_are_pinned(d: DirectoryModel) -> bool {
    forall|id: Seq<char>| #[trigger]
        d.devices.dom().contains(id) && d.devices[id].caps.can_host ==> d.pinned.dom().contains(
            id,
        )
}

/// Every host online has an identity that the server pinned: so it starts, and
/// so every message and every exit leaves it.
pub proof fn law_hosts_are_pinned(
    d: DirectoryModel,
    c: ConnectionModel,
    msg: ClientModel,
    now: u64,
    secret: Seq<char>,
    ice: super::turn::IceConfigModel,
    pinned: Map<Seq<char>, Seq<char>>,
)
    ensures
        hosts_are_pinned(fresh(secret, ice, pinned)),
        hosts_are_pinned(d) ==> hosts_are_pinned(react(d, c, msg, now).after),
        hosts_are_pinned(d) ==> hosts_are_pinned(exit(d, c).after),
{
    if hosts_are_pinned(d) {
        let after = react(d, c, msg, now).after;
        assert forall|id: Seq<char>| #[trigger]
            after.devices.dom().contains(id) && after.devices[id].caps.can_host implies after.pinned.dom().contains(
        id) by {
            if d.devices.dom().contains(id) {
            }
        }
        let left = exit(d, c).after;
        assert forall|id: Seq<char>| #[trigger]
            left.devices.dom().contains(id) && left.devices[id].caps.can_host implies left.pinned.dom().contains(
        id) by {
            assert(d.devices.dom().contains(id));
        }
    }
}

/// Whether a message lists a device.
pub open spec fn tells_of(o: OutgoingModel, device_id: Seq<char>, device: DeviceModel) -> bool {
    o.message matches ServerModel::Peers { peers } && peers.contains(
        PeerModel { device_id, name: device.name, caps: device.caps },
    )
}

/// An announcement reaches every device online and lists every device online
/// with its name and capabilities.
pub proof fn law_presence_is_complete(
    r: ReactionModel,
    sends: Seq<OutgoingModel>,
    to: Seq<char>,
    about: Seq<char>,
)
    requires
        r.announce,
        carries_out(r, sends),
        r.after.devices.dom().contains(to),
        r.after.devices.dom().contains(about),
    ensures
        exists|i: int|
            0 <= i < sends.len() && (#[trigger] sends[i]).conn_id == r.after.devices[to].conn_id
                && tells_of(sends[i], about, r.after.devices[about]),
{
    let devices = r.after.devices;
    let tail = choose|tail: Seq<OutgoingModel>| #[trigger]
        is_announcement(devices, tail) && sends == r.direct + tail;
    let ids = choose|ids: Seq<Seq<char>>|
        is_listing(ids, devices) && tail == #[trigger] announcement(devices, ids);
    assert(ids.to_set().contains(to));
    assert(ids.to_set().contains(about));
    let i = choose|i: int| 0 <= i < ids.len() && ids[i] == to;
    let j = choose|j: int| 0 <= j < ids.len() && ids[j] == about;
    let at = r.direct.len() + i;
    let peers = peer_list(devices, ids);
    assert(sends[at] == tail[i]);
    assert(peers[j] == PeerModel {
        device_id: about,
        name: devices[about].name,
        caps: devices[about].caps,
    });
    assert(tells_of(sends[at], about, devices[about]));
}

/// Bytes written in hexadecimal read back: a key or signature that a peer
/// encodes is the one the server checks.
pub proof fn law_hex_round_trip(bytes: Seq<u8>)
    ensures
        is_hex(hex_text(bytes)),
        hex_bytes(hex_text(bytes)) == bytes,
{
    let s = hex_text(bytes);
    assert forall|i: int| 0 <= i < s.len() implies hex_value(#[trigger] s[i]) == Some(
        if i % 2 == 0 {
            bytes[i / 2] as int / 16
        } else {
            bytes[i / 2] as int % 16
        },
    ) by {
        let d = if i % 2 == 0 {
            bytes[i / 2] as int / 16
        } else {
            bytes[i / 2] as int % 16
        };
        assert(0 <= d < 16);
        assert(s[i] == digit(d));
        assert(digit(d) as int == if d < 10 {
            48 + d
        } else {
            87 + d
        });
    }
    assert(hex_bytes(s) =~= bytes) by {
        assert forall|i: int| 0 <= i < bytes.len() implies hex_bytes(s)[i] == bytes[i] by {
            assert(hex_value(s[2 * i]) == Some(bytes[i] as int / 16));
            assert(hex_value(s[2 * i + 1]) == Some(bytes[i] as int % 16));
        }
    }
}

/// A TURN username tells the expiry and the user apart.
pub proof fn law_turn_username_is_unambiguous(
    expiry1: nat,
    user1: Seq<char>,
    expiry2: nat,
    user2: Seq<char>,
)
    requires
        turn_username(expiry1, user1) == turn_username(expiry2, user2),
    ensures
        expiry1 == expiry2,
        user1 == user2,
{
    let n1 = decimal(expiry1);
    let n2 = decimal(expiry2);
    let s = turn_username(expiry1, user1);
    lemma_decimal_digits(expiry1);
    lemma_decimal_digits(expiry2);
    assert(s[n1.len() as int] == ':');
    assert(s[n2.len() as int] == ':');
    if n1.len() < n2.len() {
        assert(s[n1.len() as int] == n2[n1.len() as int]);
    }
    if n2.len() < n1.len() {
        assert(s[n2.len() as int] == n1[n2.len() as int]);
    }
    assert(s.take(n1.len() as int) =~= n1);
    assert(s.take(n2.len() as int) =~= n2);
    assert(s.skip(n1.len() as int + 1) =~= user1);
    assert(s.skip(n2.len() as int + 1) =~= user2);
    lemma_decimal_injective(expiry1, expiry2);
}

} // verus!
