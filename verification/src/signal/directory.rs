//! The directory of devices online, and what each message from a client makes
//! the server send to whom.
//!
//! Connections are known by a number. The server's loop owns the sockets: it
//! hands over what arrives and performs what comes back.

use vstd::prelude::*;

use super::identity::{decided, presented_for, str_opt, IdentityError, IdentityStore};
use super::protocol::{
    peers_view, text_opt, Caps, ClientMessage, ClientModel, ErrorCode, PeerInfo, PeerModel,
    ServerMessage, ServerModel,
};
use super::turn::{has_turn, ice_for, IceConfig, IceConfigModel};
use crate::strmap::{as_map, distinct_keys, has_key, key_index, StrMap};
use crate::text::same_text;

verus! {

/// A device online.
#[derive(Debug)]
pub struct Device {
    name: String,
    caps: Caps,
    conn_id: u64,
}

/// A device online, as a value.
#[verifier::ext_equal]
pub struct DeviceModel {
    pub name: Seq<char>,
    pub caps: Caps,
    pub conn_id: u64,
}

impl View for Device {
    type V = DeviceModel;

    closed spec fn view(&self) -> DeviceModel {
        DeviceModel { name: self.name@, caps: self.caps, conn_id: self.conn_id }
    }
}

/// The server's state as a value.
#[verifier::ext_equal]
pub struct DirectoryModel {
    pub secret: Seq<char>,
    pub ice: IceConfigModel,
    pub devices: Map<Seq<char>, DeviceModel>,
    pub pinned: Map<Seq<char>, Seq<char>>,
    pub next_conn: u64,
}

/// One client connection: its number, the nonce it was challenged with, and the
/// device it registered last.
#[derive(Debug)]
pub struct Connection {
    conn_id: u64,
    nonce: String,
    registered: Option<String>,
}

/// A connection as a value.
#[verifier::ext_equal]
pub struct ConnectionModel {
    pub conn_id: u64,
    pub nonce: Seq<char>,
    pub registered: Option<Seq<char>>,
}

impl View for Connection {
    type V = ConnectionModel;

    closed spec fn view(&self) -> ConnectionModel {
        ConnectionModel {
            conn_id: self.conn_id,
            nonce: self.nonce@,
            registered: text_opt(self.registered),
        }
    }
}

impl Connection {
    pub fn conn_id(&self) -> (n: u64)
        ensures
            n == self@.conn_id,
    {
        self.conn_id
    }
}

/// A message for a connection.
#[derive(Debug)]
pub struct Outgoing {
    pub conn_id: u64,
    pub message: ServerMessage,
}

/// A message for a connection, as a value.
#[verifier::ext_equal]
pub struct OutgoingModel {
    pub conn_id: u64,
    pub message: ServerModel,
}

impl View for Outgoing {
    type V = OutgoingModel;

    open spec fn view(&self) -> OutgoingModel {
        OutgoingModel { conn_id: self.conn_id, message: self.message@ }
    }
}

/// A list of messages as a value.
pub open spec fn outbox(v: Seq<Outgoing>) -> Seq<OutgoingModel> {
    v.map_values(|o: Outgoing| o@)
}

/// What the server's loop is to do: send these, in this order, then close the
/// connection the message came from if so told.
#[derive(Debug)]
pub struct Reaction {
    pub sends: Vec<Outgoing>,
    pub close: bool,
}

/// What a message does, as a value. The messages to single connections come
/// first; the directory is announced to everyone after them where so told.
#[verifier::ext_equal]
pub struct ReactionModel {
    pub after: DirectoryModel,
    pub registered: Option<Seq<char>>,
    pub direct: Seq<OutgoingModel>,
    pub announce: bool,
    pub close: bool,
}

/// The devices online in some order.
pub open spec fn is_listing(ids: Seq<Seq<char>>, devices: Map<Seq<char>, DeviceModel>) -> bool {
    ids.no_duplicates() && ids.to_set() == devices.dom()
}

/// The directory as it is announced, in an order.
pub open spec fn peer_list(devices: Map<Seq<char>, DeviceModel>, ids: Seq<Seq<char>>) -> Seq<
    PeerModel,
> {
    Seq::new(
        ids.len(),
        |i: int|
            PeerModel {
                device_id: ids[i],
                name: devices[ids[i]].name,
                caps: devices[ids[i]].caps,
            },
    )
}

/// The directory announced to each device online, in an order.
pub open spec fn announcement(devices: Map<Seq<char>, DeviceModel>, ids: Seq<Seq<char>>) -> Seq<
    OutgoingModel,
> {
    Seq::new(
        ids.len(),
        |i: int|
            OutgoingModel {
                conn_id: devices[ids[i]].conn_id,
                message: ServerModel::Peers { peers: peer_list(devices, ids) },
            },
    )
}

/// Everyone online is told of everyone online, in some order.
pub open spec fn is_announcement(
    devices: Map<Seq<char>, DeviceModel>,
    sends: Seq<OutgoingModel>,
) -> bool {
    exists|ids: Seq<Seq<char>>|
        is_listing(ids, devices) && sends == #[trigger] announcement(devices, ids)
}

/// Whether the messages sent are the ones a reaction calls for.
pub open spec fn carries_out(r: ReactionModel, sends: Seq<OutgoingModel>) -> bool {
    if r.announce {
        exists|tail: Seq<OutgoingModel>|
            #[trigger] is_announcement(r.after.devices, tail) && sends == r.direct + tail
    } else {
        sends == r.direct
    }
}

/// An error for a connection.
pub open spec fn error_to(conn_id: u64, code: ErrorCode, message: Seq<char>) -> OutgoingModel {
    OutgoingModel { conn_id, message: ServerModel::Error { code, message } }
}

/// Nothing changes; an answer goes back, or nothing.
pub open spec fn reply(
    d: DirectoryModel,
    c: ConnectionModel,
    direct: Seq<OutgoingModel>,
    close: bool,
) -> ReactionModel {
    ReactionModel { after: d, registered: c.registered, direct, announce: false, close }
}

pub open spec fn not_registered(d: DirectoryModel, c: ConnectionModel) -> ReactionModel {
    reply(
        d,
        c,
        seq![error_to(c.conn_id, ErrorCode::NotRegistered, "register first"@)],
        false,
    )
}

pub open spec fn unknown_target(
    d: DirectoryModel,
    c: ConnectionModel,
    target: Seq<char>,
) -> ReactionModel {
    reply(
        d,
        c,
        seq![error_to(c.conn_id, ErrorCode::UnknownTarget, target + " is not online"@)],
        false,
    )
}

/// A registration that passed the secret and the pins: the device is online on
/// this connection. A connection that held it before is told that it was
/// replaced.
pub open spec fn admitted(
    d: DirectoryModel,
    c: ConnectionModel,
    pinned: Map<Seq<char>, Seq<char>>,
    device_id: Seq<char>,
    name: Seq<char>,
    caps: Caps,
    now: u64,
) -> ReactionModel {
    let replaced = if d.devices.dom().contains(device_id) {
        seq![
            error_to(
                d.devices[device_id].conn_id,
                ErrorCode::Replaced,
                "a newer connection registered this device id"@,
            ),
        ]
    } else {
        Seq::empty()
    };
    let welcome = OutgoingModel {
        conn_id: c.conn_id,
        message: ServerModel::Registered { ice_servers: ice_for(d.ice, device_id, now) },
    };
    ReactionModel {
        after: DirectoryModel {
            devices: d.devices.insert(
                device_id,
                DeviceModel { name, caps, conn_id: c.conn_id },
            ),
            pinned,
            ..d
        },
        registered: Some(device_id),
        direct: replaced.push(welcome),
        announce: true,
        close: false,
    }
}

/// A registration once the pins have been asked.
pub open spec fn registration(
    d: DirectoryModel,
    c: ConnectionModel,
    verdict: (Map<Seq<char>, Seq<char>>, Result<(), IdentityError>),
    device_id: Seq<char>,
    name: Seq<char>,
    caps: Caps,
    now: u64,
) -> ReactionModel {
    match verdict.1 {
        Err(e) => reply(
            DirectoryModel { pinned: verdict.0, ..d },
            c,
            seq![error_to(c.conn_id, e.code(), e.text())],
            true,
        ),
        Ok(()) => admitted(d, c, verdict.0, device_id, name, caps, now),
    }
}

/// What a message from a client makes the server do.
pub open spec fn react(
    d: DirectoryModel,
    c: ConnectionModel,
    msg: ClientModel,
    now: u64,
) -> ReactionModel {
    match msg {
        ClientModel::Register { device_id, name, caps, auth, pubkey, sig } => if auth != d.secret {
            reply(d, c, seq![error_to(c.conn_id, ErrorCode::BadAuth, "bad secret"@)], true)
        } else {
            registration(
                d,
                c,
                decided(
                    d.pinned,
                    device_id,
                    presented_for(pubkey, sig, c.nonce, device_id),
                    caps.can_host,
                ),
                device_id,
                name,
                caps,
                now,
            )
        },
        ClientModel::Offer { target, sdp } => if c.registered is None {
            not_registered(d, c)
        } else {
            let from = c.registered->0;
            if !(d.devices.dom().contains(from) && d.devices[from].caps.can_control) {
                reply(
                    d,
                    c,
                    seq![
                        error_to(
                            c.conn_id,
                            ErrorCode::NotController,
                            "this device cannot control"@,
                        ),
                    ],
                    false,
                )
            } else if !d.devices.dom().contains(target) {
                unknown_target(d, c, target)
            } else if !d.devices[target].caps.can_host {
                reply(
                    d,
                    c,
                    seq![
                        error_to(
                            c.conn_id,
                            ErrorCode::TargetNotHost,
                            target + " cannot host"@,
                        ),
                    ],
                    false,
                )
            } else {
                reply(
                    d,
                    c,
                    seq![
                        OutgoingModel {
                            conn_id: d.devices[target].conn_id,
                            message: ServerModel::Offer { from, sdp },
                        },
                    ],
                    false,
                )
            }
        },
        ClientModel::Answer { target, sdp } => if c.registered is None {
            not_registered(d, c)
        } else if !d.devices.dom().contains(target) {
            unknown_target(d, c, target)
        } else {
            reply(
                d,
                c,
                seq![
                    OutgoingModel {
                        conn_id: d.devices[target].conn_id,
                        message: ServerModel::Answer { from: c.registered->0, sdp },
                    },
                ],
                false,
            )
        },
        ClientModel::Ice { target, candidate } => if c.registered is None {
            not_registered(d, c)
        } else if !d.devices.dom().contains(target) {
            reply(d, c, Seq::empty(), false)
        } else {
            reply(
                d,
                c,
                seq![
                    OutgoingModel {
                        conn_id: d.devices[target].conn_id,
                        message: ServerModel::Ice { from: c.registered->0, candidate },
                    },
                ],
                false,
            )
        },
    }
}

/// Whether the directory still points at a connection for the device that it
/// registered.
pub open spec fn owns_registration(d: DirectoryModel, c: ConnectionModel) -> bool {
    c.registered is Some && d.devices.dom().contains(c.registered->0)
        && d.devices[c.registered->0].conn_id == c.conn_id
}

/// What the end of a connection does: the device goes offline only if the
/// directory still points at this connection.
pub open spec fn exit(d: DirectoryModel, c: ConnectionModel) -> ReactionModel {
    if owns_registration(d, c) {
        ReactionModel {
            after: DirectoryModel { devices: d.devices.remove(c.registered->0), ..d },
            registered: c.registered,
            direct: Seq::empty(),
            announce: true,
            close: true,
        }
    } else {
        reply(d, c, Seq::empty(), true)
    }
}

/// The signaling server's state.
#[derive(Debug)]
pub struct AppState {
    secret: String,
    ice: IceConfig,
    devices: StrMap<Device>,
    identities: IdentityStore,
    conn_counter: u64,
}

/// Devices online as a value.
pub closed spec fn devices_view(m: Map<Seq<char>, Device>) -> Map<Seq<char>, DeviceModel> {
    m.map_values(|d: Device| d@)
}

impl View for AppState {
    type V = DirectoryModel;

    closed spec fn view(&self) -> DirectoryModel {
        DirectoryModel {
            secret: self.secret@,
            ice: self.ice@,
            devices: devices_view(self.devices@),
            pinned: self.identities@,
            next_conn: self.conn_counter,
        }
    }
}

/// The state a server starts in.
pub open spec fn fresh(
    secret: Seq<char>,
    ice: IceConfigModel,
    pinned: Map<Seq<char>, Seq<char>>,
) -> DirectoryModel {
    DirectoryModel { secret, ice, devices: Map::empty(), pinned, next_conn: 1 }
}

/// STUN only: the configuration where none is given.
pub open spec fn default_ice() -> IceConfigModel {
    IceConfigModel {
        stun_urls: seq!["stun:stun.l.google.com:19302"@],
        turn_urls: Seq::empty(),
        turn_secret: None,
        turn_ttl: 86_400,
    }
}

/// What a client is told whose text is no message.
pub open spec fn unparseable_reply(conn_id: u64, error: Seq<char>) -> OutgoingModel {
    error_to(conn_id, ErrorCode::BadMessage, "unparseable message: "@ + error)
}

/// A client has connected: the server afterwards, the connection, and what it is told.
pub open spec fn challenged(d: DirectoryModel, nonce: Seq<char>) -> (
    DirectoryModel,
    ConnectionModel,
    ServerModel,
) {
    (
        DirectoryModel {
            next_conn: ((d.next_conn + 1) % 0x1_0000_0000_0000_0000) as u64,
            ..d
        },
        ConnectionModel { conn_id: d.next_conn, nonce, registered: None },
        ServerModel::Challenge { nonce },
    )
}

fn push_error(sends: &mut Vec<Outgoing>, conn_id: u64, code: ErrorCode, message: String)
    ensures
        outbox(final(sends)@) == outbox(old(sends)@).push(error_to(conn_id, code, message@)),
{
    sends.push(Outgoing { conn_id, message: ServerMessage::Error { code, message } });
    assert(outbox(sends@) =~= outbox(old(sends)@).push(error_to(conn_id, code, message@)));
}

fn push_to(sends: &mut Vec<Outgoing>, conn_id: u64, message: ServerMessage)
    ensures
        outbox(final(sends)@) == outbox(old(sends)@).push(
            OutgoingModel { conn_id, message: message@ },
        ),
{
    sends.push(Outgoing { conn_id, message });
    assert(outbox(sends@) =~= outbox(old(sends)@).push(
        OutgoingModel { conn_id, message: message@ },
    ));
}

fn opt_str(s: &Option<String>) -> (r: Option<&str>)
    ensures
        str_opt(r) == text_opt(*s),
{
    match s {
        Some(s) => Some(s.as_str()),
        None => None,
    }
}

impl AppState {
    pub closed spec fn wf(&self) -> bool {
        self.devices.wf() && self.identities.wf()
    }

    /// STUN-only, no TURN, no pins from an earlier run.
    pub fn new(secret: String) -> (r: Self)
        ensures
            r.wf(),
            r@ == fresh(secret@, default_ice(), Map::empty()),
    {
        let mut stun_urls: Vec<String> = Vec::new();
        stun_urls.push("stun:stun.l.google.com:19302".to_owned());
        let ice: IceConfig = IceConfig {
            stun_urls,
            turn_urls: Vec::new(),
            turn_secret: None,
            turn_ttl: 86_400,
        };
        assert(ice@ =~~= default_ice());
        Self::with_ice(secret, ice)
    }

    pub fn with_ice(secret: String, ice: IceConfig) -> (r: Self)
        ensures
            r.wf(),
            r@ == fresh(secret@, ice@, Map::empty()),
    {
        Self::with_ice_and_identities(secret, ice, IdentityStore::ephemeral())
    }

    pub fn with_ice_and_identities(
        secret: String,
        ice: IceConfig,
        identities: IdentityStore,
    ) -> (r: Self)
        requires
            identities.wf(),
        ensures
            r.wf(),
            r@ == fresh(secret@, ice@, identities@),
    {
        let r = AppState { secret, ice, devices: StrMap::new(), identities, conn_counter: 1 };
        assert(r@.devices =~= Map::empty());
        r
    }

    /// The pins, to be stored.
    pub fn identities(&self) -> (r: &IdentityStore)
        requires
            self.wf(),
        ensures
            r.wf(),
            r@ == self@.pinned,
    {
        &self.identities
    }

    /// A client has connected: number the connection and challenge it.
    pub fn connect(&mut self, nonce: String) -> (r: (Connection, ServerMessage))
        requires
            old(self).wf(),
        ensures
            final(self).wf(),
            (final(self)@, r.0@, r.1@) == challenged(old(self)@, nonce@),
            final(self)@ == (DirectoryModel {
                next_conn: ((old(self)@.next_conn + 1) % 0x1_0000_0000_0000_0000) as u64,
                ..old(self)@
            }),
            r.0@ == (ConnectionModel {
                conn_id: old(self)@.next_conn,
                nonce: nonce@,
                registered: None,
            }),
            r.1@ == (ServerModel::Challenge { nonce: nonce@ }),
    {
        let conn_id: u64 = self.conn_counter;
        self.conn_counter = self.conn_counter.wrapping_add(1);
        let challenge: ServerMessage = ServerMessage::Challenge { nonce: nonce.clone() };
        (Connection { conn_id, nonce, registered: None }, challenge)
    }

    /// The answer to text that is no message.
    pub fn unparseable(conn: &Connection, error: &str) -> (r: Outgoing)
        ensures
            r@ == unparseable_reply(conn@.conn_id, error@),
            r@ == error_to(
                conn@.conn_id,
                ErrorCode::BadMessage,
                "unparseable message: "@ + error@,
            ),
    {
        let mut message: String = "unparseable message: ".to_owned();
        message.append(error);
        Outgoing {
            conn_id: conn.conn_id,
            message: ServerMessage::Error { code: ErrorCode::BadMessage, message },
        }
    }

    /// A client has sent a message.
    pub fn on_message(
        &mut self,
        conn: &mut Connection,
        msg: ClientMessage,
        now_unix: u64,
    ) -> (r: Reaction)
        requires
            old(self).wf(),
            msg@ is Register && msg@->auth == old(self)@.secret && has_turn(old(self)@.ice)
                ==> now_unix + old(self)@.ice.turn_ttl <= u64::MAX,
        ensures
            final(self).wf(),
            ({
                let want = react(old(self)@, old(conn)@, msg@, now_unix);
                &&& final(self)@ == want.after
                &&& final(conn)@ == (ConnectionModel { registered: want.registered, ..old(conn)@ })
                &&& carries_out(want, outbox(r.sends@))
                &&& r.close == want.close
            }),
    {
        match msg {
            ClientMessage::Register { device_id, name, caps, auth, pubkey, sig } => {
                let mut sends: Vec<Outgoing> = Vec::new();
                if !same_text(auth.as_str(), self.secret.as_str()) {
                    push_error(
                        &mut sends,
                        conn.conn_id,
                        ErrorCode::BadAuth,
                        "bad secret".to_owned(),
                    );
                    assert(outbox(sends@) =~= react(old(self)@, old(conn)@, msg@, now_unix).direct);
                    return Reaction { sends, close: true };
                }
                let verdict: Result<(), IdentityError> = self.identities.authorize(
                    device_id.as_str(),
                    conn.nonce.as_str(),
                    opt_str(&pubkey),
                    opt_str(&sig),
                    caps.can_host,
                );
                match verdict {
                    Err(e) => {
                        push_error(&mut sends, conn.conn_id, e.error_code(), e.message());
                        assert(outbox(sends@) =~= react(
                            old(self)@,
                            old(conn)@,
                            msg@,
                            now_unix,
                        ).direct);
                        Reaction { sends, close: true }
                    },
                    Ok(()) => self.bring_online(conn, device_id, name, caps, now_unix),
                }
            },
            ClientMessage::Offer { target, sdp } => self.on_offer(conn, target, sdp),
            ClientMessage::Answer { target, sdp } => self.on_answer(conn, target, sdp),
            ClientMessage::Ice { target, candidate } => self.on_ice(conn, target, candidate),
        }
    }

    /// A registration that passed the secret and the pins.
    fn bring_online(
        &mut self,
        conn: &mut Connection,
        device_id: String,
        name: String,
        caps: Caps,
        now_unix: u64,
    ) -> (r: Reaction)
        requires
            old(self).wf(),
            has_turn(old(self)@.ice) ==> now_unix + old(self)@.ice.turn_ttl <= u64::MAX,
        ensures
            final(self).wf(),
            ({
                let want = admitted(
                    old(self)@,
                    old(conn)@,
                    old(self)@.pinned,
                    device_id@,
                    name@,
                    caps,
                    now_unix,
                );
                &&& final(self)@ == want.after
                &&& final(conn)@ == (ConnectionModel { registered: want.registered, ..old(conn)@ })
                &&& carries_out(want, outbox(r.sends@))
                &&& r.close == want.close
            }),
    {
        let ghost want = admitted(
            self@,
            conn@,
            self@.pinned,
            device_id@,
            name@,
            caps,
            now_unix,
        );
        let mut sends: Vec<Outgoing> = Vec::new();
        let device: Device = Device { name, caps, conn_id: conn.conn_id };
        let ghost before = self.devices@;
        let previous: Option<Device> = self.devices.insert(device_id.clone(), device);
        assert(devices_view(before.insert(device_id@, device)) =~= devices_view(before).insert(
            device_id@,
            device@,
        ));
        assert(outbox(sends@) =~= Seq::empty());
        if let Some(stale) = previous {
            push_error(
                &mut sends,
                stale.conn_id,
                ErrorCode::Replaced,
                "a newer connection registered this device id".to_owned(),
            );
        }
        let ice_servers = self.ice.ice_servers_for(device_id.as_str(), now_unix);
        push_to(&mut sends, conn.conn_id, ServerMessage::Registered { ice_servers });
        conn.registered = Some(device_id);
        assert(outbox(sends@) =~= want.direct);
        assert(self@ =~= want.after);
        self.announce(&mut sends);
        Reaction { sends, close: false }
    }

    fn on_offer(&self, conn: &Connection, target: String, sdp: String) -> (r: Reaction)
        requires
            self.wf(),
        ensures
            ({
                let want = react(
                    self@,
                    conn@,
                    ClientModel::Offer { target: target@, sdp: sdp@ },
                    0,
                );
                &&& outbox(r.sends@) == want.direct
                &&& r.close == want.close
            }),
    {
        let ghost want = react(self@, conn@, ClientModel::Offer { target: target@, sdp: sdp@ }, 0);
        let mut sends: Vec<Outgoing> = Vec::new();
        match &conn.registered {
            None => push_error(
                &mut sends,
                conn.conn_id,
                ErrorCode::NotRegistered,
                "register first".to_owned(),
            ),
            Some(from) => {
                // Directory-level capability enforcement: only controllers may
                // offer, only hosts may be offered to.
                let can_control: bool = match self.devices.get(from.as_str()) {
                    Some(d) => d.caps.can_control,
                    None => false,
                };
                if !can_control {
                    push_error(
                        &mut sends,
                        conn.conn_id,
                        ErrorCode::NotController,
                        "this device cannot control".to_owned(),
                    );
                } else {
                    match self.devices.get(target.as_str()) {
                        None => {
                            let mut message: String = target;
                            message.append(" is not online");
                            push_error(
                                &mut sends,
                                conn.conn_id,
                                ErrorCode::UnknownTarget,
                                message,
                            );
                        },
                        Some(t) => if !t.caps.can_host {
                            let mut message: String = target;
                            message.append(" cannot host");
                            push_error(
                                &mut sends,
                                conn.conn_id,
                                ErrorCode::TargetNotHost,
                                message,
                            );
                        } else {
                            push_to(
                                &mut sends,
                                t.conn_id,
                                ServerMessage::Offer { from: from.clone(), sdp },
                            );
                        },
                    }
                }
            },
        }
        assert(outbox(sends@) =~= want.direct);
        Reaction { sends, close: false }
    }

    fn on_answer(&self, conn: &Connection, target: String, sdp: String) -> (r: Reaction)
        requires
            self.wf(),
        ensures
            ({
                let want = react(
                    self@,
                    conn@,
                    ClientModel::Answer { target: target@, sdp: sdp@ },
                    0,
                );
                &&& outbox(r.sends@) == want.direct
                &&& r.close == want.close
            }),
    {
        let ghost want = react(self@, conn@, ClientModel::Answer { target: target@, sdp: sdp@ }, 0);
        let mut sends: Vec<Outgoing> = Vec::new();
        match &conn.registered {
            None => push_error(
                &mut sends,
                conn.conn_id,
                ErrorCode::NotRegistered,
                "register first".to_owned(),
            ),
            Some(from) => match self.devices.get(target.as_str()) {
                None => {
                    let mut message: String = target;
                    message.append(" is not online");
                    push_error(&mut sends, conn.conn_id, ErrorCode::UnknownTarget, message);
                },
                Some(t) => push_to(
                    &mut sends,
                    t.conn_id,
                    ServerMessage::Answer { from: from.clone(), sdp },
                ),
            },
        }
        assert(outbox(sends@) =~= want.direct);
        Reaction { sends, close: false }
    }

    fn on_ice(&self, conn: &Connection, target: String, candidate: String) -> (r: Reaction)
        requires
            self.wf(),
        ensures
            ({
                let want = react(
                    self@,
                    conn@,
                    ClientModel::Ice { target: target@, candidate: candidate@ },
                    0,
                );
                &&& outbox(r.sends@) == want.direct
                &&& r.close == want.close
            }),
    {
        let ghost want = react(
            self@,
            conn@,
            ClientModel::Ice { target: target@, candidate: candidate@ },
            0,
        );
        let mut sends: Vec<Outgoing> = Vec::new();
        match &conn.registered {
            None => push_error(
                &mut sends,
                conn.conn_id,
                ErrorCode::NotRegistered,
                "register first".to_owned(),
            ),
            // Unknown target for trickle ICE: drop silently (candidates can race
            // a peer's disconnect; erroring is just noise).
            Some(from) => if let Some(t) = self.devices.get(target.as_str()) {
                push_to(
                    &mut sends,
                    t.conn_id,
                    ServerMessage::Ice { from: from.clone(), candidate },
                );
            },
        }
        assert(outbox(sends@) =~= want.direct);
        Reaction { sends, close: false }
    }

    /// A connection has ended. Deregister only if the directory still points at
    /// *this* connection; a replacement registration must not be wiped by the
    /// stale socket's exit.
    pub fn disconnect(&mut self, conn: &Connection) -> (r: Reaction)
        requires
            old(self).wf(),
        ensures
            final(self).wf(),
            ({
                let want = exit(old(self)@, conn@);
                &&& final(self)@ == want.after
                &&& carries_out(want, outbox(r.sends@))
                &&& r.close == want.close
            }),
    {
        let ghost want = exit(self@, conn@);
        let mut sends: Vec<Outgoing> = Vec::new();
        assert(outbox(sends@) =~= Seq::empty());
        if let Some(device_id) = &conn.registered {
            let ours: bool = match self.devices.get(device_id.as_str()) {
                Some(d) => d.conn_id == conn.conn_id,
                None => false,
            };
            if ours {
                let ghost before = self.devices@;
                let _ = self.devices.remove(device_id.as_str());
                assert(devices_view(before.remove(device_id@)) =~= devices_view(before).remove(
                    device_id@,
                ));
                assert(self@ =~= want.after);
                self.announce(&mut sends);
            }
        }
        Reaction { sends, close: true }
    }

    fn announce(&self, sends: &mut Vec<Outgoing>)
        requires
            self.wf(),
        ensures
            exists|tail: Seq<OutgoingModel>| #[trigger]
                is_announcement(self@.devices, tail) && outbox(final(sends)@) == outbox(
                    old(sends)@,
                ) + tail,
    {
        let entries: &Vec<(String, Device)> = self.devices.entries();
        let ghost ids = entries@.map_values(|e: (String, Device)| e.0@);
        let ghost devices = self@.devices;
        let ghost start = outbox(sends@);
        proof {
            lemma_entries(entries@);
        }
        let mut i: usize = 0;
        while i < entries.len()
            invariant
                i <= entries@.len(),
                self.wf(),
                entries@ == self.devices.listed(),
                ids == entries@.map_values(|e: (String, Device)| e.0@),
                devices == self@.devices,
                outbox(sends@) == start + announcement(devices, ids).take(i as int),
                forall|j: int|
                    0 <= j < entries@.len() ==> devices[ids[j]] == (#[trigger] entries@[j]).1@,
            decreases entries@.len() - i,
        {
            let peers: Vec<PeerInfo> = self.peers();
            let conn_id: u64 = entries[i].1.conn_id;
            assert(devices[ids[i as int]] == entries@[i as int].1@);
            push_to(sends, conn_id, ServerMessage::Peers { peers });
            assert(announcement(devices, ids).take(i as int + 1) =~= announcement(
                devices,
                ids,
            ).take(i as int).push(announcement(devices, ids)[i as int]));
            assert(outbox(sends@) =~= start + announcement(devices, ids).take(i as int + 1));
            i += 1;
        }
        proof {
            let tail = announcement(devices, ids);
            assert(tail.take(i as int) =~= tail);
            assert(is_listing(ids, devices));
            assert(is_announcement(devices, tail));
        }
    }

    /// The directory as it is announced, in the order in which it is kept.
    fn peers(&self) -> (r: Vec<PeerInfo>)
        requires
            self.wf(),
        ensures
            peers_view(r@) == peer_list(
                self@.devices,
                self.devices.listed().map_values(|e: (String, Device)| e.0@),
            ),
    {
        let entries: &Vec<(String, Device)> = self.devices.entries();
        let ghost ids = entries@.map_values(|e: (String, Device)| e.0@);
        let ghost devices = self@.devices;
        proof {
            lemma_entries(entries@);
        }
        let mut peers: Vec<PeerInfo> = Vec::new();
        let mut i: usize = 0;
        while i < entries.len()
            invariant
                i <= entries@.len(),
                ids == entries@.map_values(|e: (String, Device)| e.0@),
                peers_view(peers@) == peer_list(devices, ids).take(i as int),
                forall|j: int|
                    0 <= j < entries@.len() ==> devices[ids[j]] == (#[trigger] entries@[j]).1@,
            decreases entries@.len() - i,
        {
            let entry: &(String, Device) = &entries[i];
            assert(devices[ids[i as int]] == entries@[i as int].1@);
            let ghost so_far = peers_view(peers@);
            let peer: PeerInfo = PeerInfo {
                device_id: entry.0.clone(),
                name: entry.1.name.clone(),
                caps: entry.1.caps,
            };
            peers.push(peer);
            proof {
                let all = peer_list(devices, ids);
                assert(ids[i as int] == entry.0@);
                assert(peer@ == all[i as int]);
                assert(peers_view(peers@) =~= so_far.push(peer@));
                assert(all.take(i as int + 1) =~= all.take(i as int).push(all[i as int]));
            }
            i += 1;
        }
        assert(peer_list(devices, ids).take(i as int) =~= peer_list(devices, ids));
        peers
    }
}

/// The entries of a map list its keys, each with its value.
proof fn lemma_entries(entries: Seq<(String, Device)>)
    requires
        distinct_keys(entries),
    ensures
        ({
            let ids = entries.map_values(|e: (String, Device)| e.0@);
            let devices = devices_view(as_map(entries));
            &&& is_listing(ids, devices)
            &&& forall|j: int|
                0 <= j < entries.len() ==> devices[ids[j]] == (#[trigger] entries[j]).1@
        }),
{
    let ids = entries.map_values(|e: (String, Device)| e.0@);
    let devices = devices_view(as_map(entries));
    assert(ids.no_duplicates());
    assert forall|k: Seq<char>| #[trigger] ids.to_set().contains(k) <==> devices.dom().contains(
        k,
    ) by {
        if ids.contains(k) {
            let i = choose|i: int| 0 <= i < ids.len() && ids[i] == k;
            assert(entries[i].0@ == k);
        }
        if has_key(entries, k) {
            let i = key_index(entries, k);
            assert(0 <= i < entries.len() && entries[i].0@ == k);
            assert(ids[i] == k);
        }
    }
    assert(ids.to_set() =~= devices.dom());
    assert forall|j: int| 0 <= j < entries.len() implies devices[ids[j]] == (
    #[trigger] entries[j]).1@ by {
        let k = entries[j].0@;
        assert(has_key(entries, k));
        let q = key_index(entries, k);
        assert(0 <= q < entries.len() && entries[q].0@ == k);
        assert(q == j);
    }
}

/// The messages that end the connection they are sent on.
pub open spec fn kicks(message: ServerModel) -> bool {
    message matches ServerModel::Error { code: ErrorCode::Replaced, .. }
}

/// Whether a message ends the connection it is sent on: a newer connection took
/// the device id.
pub fn is_kick(message: &ServerMessage) -> (r: bool)
    ensures
        r == kicks(message@),
        r == (message@ matches ServerModel::Error { code: ErrorCode::Replaced, .. }),
{
    match message {
        ServerMessage::Error { code, .. } => *code == ErrorCode::Replaced,
        _ => false,
    }
}

} // verus!
