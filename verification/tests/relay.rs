//! The signaling server driven without sockets: clients register and exchange
//! SDP/ICE through the directory.

use ed25519_dalek::{Signer, SigningKey};
use tether::rtc::{host_registration, RtcConfig, SignalAction, SignalClient};
use tether::signal::directory::{is_kick, AppState, Connection, Reaction};
use tether::signal::identity::{new_nonce, register_payload};
use tether::signal::protocol::{Caps, ClientMessage, ErrorCode, ServerMessage};
use tether::signal::turn::IceConfig;

const SECRET: &str = "test-secret";

const HOST_CAPS: Caps = Caps { can_host: true, can_control: true };
const CONTROLLER_CAPS: Caps = Caps { can_host: false, can_control: true };

/// A server and what each connection has been sent but not yet received.
struct Server {
    state: AppState,
    inboxes: Vec<(u64, Vec<ServerMessage>)>,
    closed: Vec<u64>,
}

struct Client {
    conn: Connection,
    nonce: String,
}

impl Server {
    fn start() -> Server {
        Server { state: AppState::new(SECRET.into()), inboxes: vec![], closed: vec![] }
    }

    fn connect(&mut self) -> Client {
        let nonce = new_nonce().unwrap();
        let (conn, challenge) = self.state.connect(nonce.clone());
        assert_eq!(challenge, ServerMessage::Challenge { nonce: nonce.clone() });
        self.inboxes.push((conn.conn_id(), vec![]));
        Client { conn, nonce }
    }

    fn perform(&mut self, from: u64, r: Reaction) {
        for out in r.sends {
            if self.closed.contains(&out.conn_id) {
                continue;
            }
            let kick = is_kick(&out.message);
            let inbox = self.inboxes.iter_mut().find(|i| i.0 == out.conn_id).unwrap();
            inbox.1.push(out.message);
            if kick {
                self.closed.push(out.conn_id);
            }
        }
        if r.close {
            self.closed.push(from);
        }
    }

    fn send(&mut self, c: &mut Client, msg: ClientMessage) {
        let r = self.state.on_message(&mut c.conn, msg, 1_000);
        self.perform(c.conn.conn_id(), r);
    }

    fn leave(&mut self, c: Client) {
        let r = self.state.disconnect(&c.conn);
        self.perform(c.conn.conn_id(), r);
    }

    fn recv(&mut self, c: &Client) -> Option<ServerMessage> {
        let inbox = self.inboxes.iter_mut().find(|i| i.0 == c.conn.conn_id()).unwrap();
        if inbox.1.is_empty() {
            None
        } else {
            Some(inbox.1.remove(0))
        }
    }

    /// Receive until a non-Peers message arrives.
    fn recv_directed(&mut self, c: &Client) -> Option<ServerMessage> {
        loop {
            match self.recv(c)? {
                ServerMessage::Peers { .. } => continue,
                other => return Some(other),
            }
        }
    }

    fn is_closed(&self, c: &Client) -> bool {
        self.closed.contains(&c.conn.conn_id())
    }

    fn register_as(&mut self, c: &mut Client, id: &str, caps: Caps, key: Option<&SigningKey>) {
        let (pubkey, sig) = match key {
            Some(k) => {
                let (p, s) = identity(k, &c.nonce, id);
                (Some(p), Some(s))
            }
            None => (None, None),
        };
        let msg = ClientMessage::Register {
            device_id: id.into(),
            name: id.into(),
            caps,
            auth: SECRET.into(),
            pubkey,
            sig,
        };
        self.send(c, msg);
    }

    /// Register and assert it was accepted. Hosts sign with a per-device-id key.
    fn register(&mut self, c: &mut Client, id: &str, caps: Caps) {
        let key = if caps.can_host { Some(device_key(id.as_bytes()[0])) } else { None };
        self.register_as(c, id, caps, key.as_ref());
        match self.recv(c) {
            Some(ServerMessage::Registered { .. }) => {}
            other => panic!("expected Registered, got {other:?}"),
        }
    }
}

fn device_key(seed: u8) -> SigningKey {
    SigningKey::from_bytes(&[seed; 32])
}

fn identity(key: &SigningKey, nonce: &str, device_id: &str) -> (String, String) {
    (
        hex::encode(key.verifying_key().to_bytes()),
        hex::encode(key.sign(&register_payload(nonce, device_id)).to_bytes()),
    )
}

fn code(m: Option<ServerMessage>) -> Option<ErrorCode> {
    match m {
        Some(ServerMessage::Error { code, .. }) => Some(code),
        _ => None,
    }
}

#[test]
fn offer_answer_ice_relay_round_trip() {
    let mut s = Server::start();
    let mut host = s.connect();
    let mut controller = s.connect();
    s.register(&mut host, "mac", HOST_CAPS);
    s.register(&mut controller, "ipad", CONTROLLER_CAPS);

    s.send(&mut controller, ClientMessage::Offer { target: "mac".into(), sdp: "OFFER-SDP".into() });
    match s.recv_directed(&host) {
        Some(ServerMessage::Offer { from, sdp }) => {
            assert_eq!(from, "ipad");
            assert_eq!(sdp, "OFFER-SDP");
        }
        other => panic!("expected relayed offer, got {other:?}"),
    }

    s.send(&mut host, ClientMessage::Answer { target: "ipad".into(), sdp: "ANSWER-SDP".into() });
    match s.recv_directed(&controller) {
        Some(ServerMessage::Answer { from, sdp }) => {
            assert_eq!(from, "mac");
            assert_eq!(sdp, "ANSWER-SDP");
        }
        other => panic!("expected relayed answer, got {other:?}"),
    }

    s.send(&mut controller, ClientMessage::Ice { target: "mac".into(), candidate: "CAND-1".into() });
    match s.recv_directed(&host) {
        Some(ServerMessage::Ice { from, candidate }) => {
            assert_eq!((from.as_str(), candidate.as_str()), ("ipad", "CAND-1"));
        }
        other => panic!("expected relayed ice, got {other:?}"),
    }
}

#[test]
fn presence_lists_both_devices() {
    let mut s = Server::start();
    let mut host = s.connect();
    s.register(&mut host, "mac", HOST_CAPS);
    let mut controller = s.connect();
    s.register(&mut controller, "ipad", CONTROLLER_CAPS);

    let mut saw_both = false;
    for _ in 0..3 {
        if let Some(ServerMessage::Peers { peers }) = s.recv(&host) {
            let ids: Vec<_> = peers.iter().map(|p| p.device_id.as_str()).collect();
            if ids.contains(&"mac") && ids.contains(&"ipad") {
                let ipad = peers.iter().find(|p| p.device_id == "ipad").unwrap();
                assert!(!ipad.caps.can_host, "caps must travel with presence");
                saw_both = true;
                break;
            }
        }
    }
    assert!(saw_both, "host never saw a directory containing both devices");
}

#[test]
fn bad_secret_is_refused() {
    let mut s = Server::start();
    let mut c = s.connect();
    s.send(
        &mut c,
        ClientMessage::Register {
            device_id: "intruder".into(),
            name: "intruder".into(),
            caps: CONTROLLER_CAPS,
            auth: "wrong".into(),
            pubkey: None,
            sig: None,
        },
    );
    assert_eq!(code(s.recv(&c)), Some(ErrorCode::BadAuth));
    assert!(s.is_closed(&c), "server must close after bad auth");
    assert!(s.recv(&c).is_none());
}

#[test]
fn offer_to_non_host_is_refused() {
    let mut s = Server::start();
    let mut a = s.connect();
    let mut b = s.connect();
    s.register(&mut a, "phone-a", CONTROLLER_CAPS);
    s.register(&mut b, "phone-b", CONTROLLER_CAPS);
    s.send(&mut a, ClientMessage::Offer { target: "phone-b".into(), sdp: "X".into() });
    match s.recv_directed(&a) {
        Some(ServerMessage::Error { code, message }) => {
            assert_eq!(code, ErrorCode::TargetNotHost);
            assert_eq!(message, "phone-b cannot host");
        }
        other => panic!("expected TargetNotHost, got {other:?}"),
    }
}

#[test]
fn offer_to_offline_target_is_refused() {
    let mut s = Server::start();
    let mut c = s.connect();
    s.register(&mut c, "ipad", CONTROLLER_CAPS);
    s.send(&mut c, ClientMessage::Offer { target: "ghost".into(), sdp: "X".into() });
    match s.recv_directed(&c) {
        Some(ServerMessage::Error { code, message }) => {
            assert_eq!(code, ErrorCode::UnknownTarget);
            assert_eq!(message, "ghost is not online");
        }
        other => panic!("expected UnknownTarget, got {other:?}"),
    }
}

#[test]
fn message_before_register_is_refused() {
    let mut s = Server::start();
    let mut c = s.connect();
    s.send(&mut c, ClientMessage::Ice { target: "mac".into(), candidate: "X".into() });
    assert_eq!(code(s.recv(&c)), Some(ErrorCode::NotRegistered));
}

#[test]
fn reregistration_replaces_the_stale_connection() {
    let mut s = Server::start();
    let mut old = s.connect();
    s.register(&mut old, "mac", HOST_CAPS);

    // Same device id, same identity key: a legitimate host reconnect must still
    // displace its own stale socket. Only a *different* key is refused.
    let mut new = s.connect();
    s.register(&mut new, "mac", HOST_CAPS);

    assert_eq!(code(s.recv_directed(&old)), Some(ErrorCode::Replaced));
    assert!(s.is_closed(&old));
    s.leave(old); // the stale exit must not wipe the replacement

    let mut controller = s.connect();
    s.register(&mut controller, "ipad", CONTROLLER_CAPS);
    s.send(&mut controller, ClientMessage::Offer { target: "mac".into(), sdp: "S".into() });
    match s.recv_directed(&new) {
        Some(ServerMessage::Offer { from, .. }) => assert_eq!(from, "ipad"),
        other => panic!("expected offer on the new connection, got {other:?}"),
    }
}

#[test]
fn squatter_cannot_evict_a_registered_host() {
    let mut s = Server::start();
    let mut host = s.connect();
    s.register(&mut host, "mac", HOST_CAPS);

    // A peer past the shared secret, but holding a different identity key.
    let mut squatter = s.connect();
    s.register_as(&mut squatter, "mac", HOST_CAPS, Some(&device_key(0xEE)));
    assert_eq!(code(s.recv(&squatter)), Some(ErrorCode::IdentityMismatch));

    // The incumbent is untouched: no Replaced, and offers still reach it.
    let mut controller = s.connect();
    s.register(&mut controller, "ipad", CONTROLLER_CAPS);
    s.send(&mut controller, ClientMessage::Offer { target: "mac".into(), sdp: "STILL-MINE".into() });
    match s.recv_directed(&host) {
        Some(ServerMessage::Offer { sdp, .. }) => assert_eq!(sdp, "STILL-MINE"),
        other => panic!("incumbent host lost its registration: {other:?}"),
    }
}

#[test]
fn squatter_cannot_bypass_a_pin_by_omitting_the_identity() {
    let mut s = Server::start();
    let mut host = s.connect();
    s.register(&mut host, "mac", HOST_CAPS);
    let mut squatter = s.connect();
    s.register_as(&mut squatter, "mac", HOST_CAPS, None);
    assert_eq!(code(s.recv(&squatter)), Some(ErrorCode::IdentityRequired));
}

#[test]
fn a_captured_signature_does_not_replay_onto_a_new_connection() {
    let mut s = Server::start();
    let key = device_key(b'm');
    let mut host = s.connect();
    s.register_as(&mut host, "mac", HOST_CAPS, Some(&key));
    assert!(matches!(s.recv(&host), Some(ServerMessage::Registered { .. })));

    let (pubkey, sig) = identity(&key, &host.nonce, "mac");
    let mut replay = s.connect();
    s.send(
        &mut replay,
        ClientMessage::Register {
            device_id: "mac".into(),
            name: "mac".into(),
            caps: HOST_CAPS,
            auth: SECRET.into(),
            pubkey: Some(pubkey),
            sig: Some(sig),
        },
    );
    assert_eq!(code(s.recv(&replay)), Some(ErrorCode::BadIdentity));
}

#[test]
fn unsigned_host_is_refused_but_unsigned_controller_is_allowed() {
    let mut s = Server::start();
    let mut bare_host = s.connect();
    s.register_as(&mut bare_host, "mac", HOST_CAPS, None);
    assert_eq!(code(s.recv(&bare_host)), Some(ErrorCode::IdentityRequired));

    let mut bare_ctl = s.connect();
    s.register_as(&mut bare_ctl, "ipad", CONTROLLER_CAPS, None);
    assert!(matches!(s.recv(&bare_ctl), Some(ServerMessage::Registered { .. })));
}

#[test]
fn a_device_that_cannot_control_may_not_offer() {
    let mut s = Server::start();
    let mut c = s.connect();
    s.register(&mut c, "sensor", Caps { can_host: false, can_control: false });
    s.send(&mut c, ClientMessage::Offer { target: "mac".into(), sdp: "X".into() });
    assert_eq!(code(s.recv_directed(&c)), Some(ErrorCode::NotController));
}

#[test]
fn leaving_takes_the_device_offline_and_tells_the_others() {
    let mut s = Server::start();
    let mut host = s.connect();
    s.register(&mut host, "mac", HOST_CAPS);
    let mut controller = s.connect();
    s.register(&mut controller, "ipad", CONTROLLER_CAPS);
    while s.recv(&controller).is_some() {}
    s.leave(host);
    match s.recv(&controller) {
        Some(ServerMessage::Peers { peers }) => {
            assert_eq!(peers.len(), 1);
            assert_eq!(peers[0].device_id, "ipad");
        }
        other => panic!("expected Peers, got {other:?}"),
    }
    // candidates for a device that left are dropped, answers are refused
    s.send(&mut controller, ClientMessage::Ice { target: "mac".into(), candidate: "C".into() });
    assert!(s.recv(&controller).is_none());
    s.send(&mut controller, ClientMessage::Answer { target: "mac".into(), sdp: "A".into() });
    assert_eq!(code(s.recv(&controller)), Some(ErrorCode::UnknownTarget));
}

#[test]
fn unparseable_text_is_answered() {
    let mut s = Server::start();
    let c = s.connect();
    let out = AppState::unparseable(&c.conn, "eof");
    assert_eq!(out.conn_id, c.conn.conn_id());
    assert_eq!(
        out.message,
        ServerMessage::Error {
            code: ErrorCode::BadMessage,
            message: "unparseable message: eof".into()
        }
    );
}

#[test]
fn the_default_advertises_one_stun_server() {
    let mut s = Server::start();
    let mut c = s.connect();
    s.register_as(&mut c, "ipad", CONTROLLER_CAPS, None);
    match s.recv(&c) {
        Some(ServerMessage::Registered { ice_servers }) => {
            assert_eq!(ice_servers.len(), 1);
            assert_eq!(ice_servers[0].urls, vec!["stun:stun.l.google.com:19302".to_string()]);
        }
        other => panic!("{other:?}"),
    }
}

#[test]
fn a_host_answers_the_challenge_and_is_accepted() {
    let config = RtcConfig {
        signal_url: "ws://signal/ws".into(),
        secret: SECRET.into(),
        device_id: "mac".into(),
        device_name: "Mac".into(),
        stun: vec![],
    };
    let mut server = Server::start();
    let mut client = SignalClient::new(vec![]);
    let mut host = server.connect();
    let challenge = ServerMessage::Challenge { nonce: host.nonce.clone() };
    let SignalAction::Register { nonce } = client.on_message(challenge) else { panic!() };
    let answer = host_registration(&config, &nonce, &[5u8; 32]);
    server.send(&mut host, answer);
    assert!(matches!(server.recv_directed(&host), Some(ServerMessage::Registered { .. })));
    let key = SigningKey::from_bytes(&[5u8; 32]).verifying_key();
    let pins = server.state.identities().pins();
    assert_eq!(pins.get("mac"), Some(&hex::encode(key.to_bytes())));
}

#[test]
fn the_clock_matters_to_accepted_registrations_only() {
    let ice = IceConfig {
        stun_urls: vec![],
        turn_urls: vec!["turn:t".into()],
        turn_secret: Some("s".into()),
        turn_ttl: 600,
    };
    let mut state = AppState::with_ice(SECRET.into(), ice);
    let (mut conn, _) = state.connect("n".into());
    let offer = ClientMessage::Offer { target: "x".into(), sdp: "o".into() };
    let r = state.on_message(&mut conn, offer, u64::MAX);
    assert!(!r.close);
    let register = ClientMessage::Register {
        device_id: "ipad".into(),
        name: "iPad".into(),
        caps: CONTROLLER_CAPS,
        auth: "wrong".into(),
        pubkey: None,
        sig: None,
    };
    assert!(state.on_message(&mut conn, register, u64::MAX).close);
}
