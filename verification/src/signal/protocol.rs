//! Signaling messages. SDP and ICE payloads are relayed verbatim; the server
//! never interprets them.

use vstd::prelude::*;

verus! {

#[derive(Debug, Clone, Copy, PartialEq, Eq, Structural)]
pub struct Caps {
    pub can_host: bool,
    pub can_control: bool,
}

#[derive(Debug, Clone, PartialEq, Eq)]
pub struct PeerInfo {
    pub device_id: String,
    pub name: String,
    pub caps: Caps,
}

/// An ICE server entry shaped for a browser `RTCPeerConnection` (STUN entries
/// omit username/credential; TURN entries carry ephemeral coturn creds).
#[derive(Debug, Clone, PartialEq, Eq)]
pub struct IceServer {
    pub urls: Vec<String>,
    pub username: Option<String>,
    pub credential: Option<String>,
}

/// Client to server.
#[derive(Debug, Clone, PartialEq, Eq)]
pub enum ClientMessage {
    /// Must be the first message on a connection, and must answer the
    /// `Challenge` the server sends on connect. `auth` is the pre-shared secret,
    /// a coarse admission gate only.
    ///
    /// `pubkey`/`sig` are the per-device identity: an Ed25519 signature over
    /// [`crate::signal::identity::register_payload`]. Mandatory for hosts and
    /// for any `device_id` the server has already pinned; optional for a
    /// controller registering an id nobody has claimed.
    Register {
        device_id: String,
        name: String,
        caps: Caps,
        auth: String,
        pubkey: Option<String>,
        sig: Option<String>,
    },
    /// Controller to host. Refused unless the sender can control and the target
    /// is a registered host.
    Offer { target: String, sdp: String },
    /// Host to controller.
    Answer { target: String, sdp: String },
    /// Trickle ICE, either direction.
    Ice { target: String, candidate: String },
}

/// Server to client.
#[derive(Debug, Clone, PartialEq, Eq)]
pub enum ServerMessage {
    /// Sent once, immediately on connect, before anything else. The client
    /// signs this nonce (bound to its `device_id`) and answers with `Register`.
    Challenge { nonce: String },
    /// Registration accepted; carries the ICE servers (STUN + ephemeral TURN)
    /// the peer should use for its `RTCPeerConnection`.
    Registered { ice_servers: Vec<IceServer> },
    /// Full directory snapshot, broadcast on every join/leave.
    Peers { peers: Vec<PeerInfo> },
    Offer { from: String, sdp: String },
    Answer { from: String, sdp: String },
    Ice { from: String, candidate: String },
    Error { code: ErrorCode, message: String },
}

#[derive(Debug, Clone, Copy, PartialEq, Eq, Structural)]
pub enum ErrorCode {
    BadAuth,
    NotRegistered,
    UnknownTarget,
    TargetNotHost,
    NotController,
    Replaced,
    BadMessage,
    /// A signed registration is required here (this peer is a host, or the
    /// `device_id` is already pinned) and none was presented.
    IdentityRequired,
    /// The presented key or signature is malformed or does not verify.
    BadIdentity,
    /// The `device_id` is pinned to a different key. The squatting refusal:
    /// the incumbent host keeps its registration.
    IdentityMismatch,
}

/// A directory entry as a value.
#[verifier::ext_equal]
pub struct PeerModel {
    pub device_id: Seq<char>,
    pub name: Seq<char>,
    pub caps: Caps,
}

/// An ICE server entry as a value.
#[verifier::ext_equal]
pub struct IceModel {
    pub urls: Seq<Seq<char>>,
    pub username: Option<Seq<char>>,
    pub credential: Option<Seq<char>>,
}

/// A client's message as a value.
#[verifier::ext_equal]
pub enum ClientModel {
    Register {
        device_id: Seq<char>,
        name: Seq<char>,
        caps: Caps,
        auth: Seq<char>,
        pubkey: Option<Seq<char>>,
        sig: Option<Seq<char>>,
    },
    Offer { target: Seq<char>, sdp: Seq<char> },
    Answer { target: Seq<char>, sdp: Seq<char> },
    Ice { target: Seq<char>, candidate: Seq<char> },
}

/// A server's message as a value.
#[verifier::ext_equal]
pub enum ServerModel {
    Challenge { nonce: Seq<char> },
    Registered { ice_servers: Seq<IceModel> },
    Peers { peers: Seq<PeerModel> },
    Offer { from: Seq<char>, sdp: Seq<char> },
    Answer { from: Seq<char>, sdp: Seq<char> },
    Ice { from: Seq<char>, candidate: Seq<char> },
    Error { code: ErrorCode, message: Seq<char> },
}

/// An optional text as a value.
pub open spec fn text_opt(s: Option<String>) -> Option<Seq<char>> {
    match s {
        Some(s) => Some(s@),
        None => None,
    }
}

/// A list of texts as a value.
pub open spec fn texts(v: Seq<String>) -> Seq<Seq<char>> {
    v.map_values(|s: String| s@)
}

impl View for PeerInfo {
    type V = PeerModel;

    open spec fn view(&self) -> PeerModel {
        PeerModel { device_id: self.device_id@, name: self.name@, caps: self.caps }
    }
}

impl View for IceServer {
    type V = IceModel;

    open spec fn view(&self) -> IceModel {
        IceModel {
            urls: texts(self.urls@),
            username: text_opt(self.username),
            credential: text_opt(self.credential),
        }
    }
}

/// A list of ICE server entries as a value.
pub open spec fn ice_view(v: Seq<IceServer>) -> Seq<IceModel> {
    v.map_values(|s: IceServer| s@)
}

/// A list of directory entries as a value.
pub open spec fn peers_view(v: Seq<PeerInfo>) -> Seq<PeerModel> {
    v.map_values(|p: PeerInfo| p@)
}

impl View for ClientMessage {
    type V = ClientModel;

    open spec fn view(&self) -> ClientModel {
        match *self {
            ClientMessage::Register { device_id, name, caps, auth, pubkey, sig } =>
                ClientModel::Register {
                    device_id: device_id@,
                    name: name@,
                    caps,
                    auth: auth@,
                    pubkey: text_opt(pubkey),
                    sig: text_opt(sig),
                },
            ClientMessage::Offer { target, sdp } => ClientModel::Offer {
                target: target@,
                sdp: sdp@,
            },
            ClientMessage::Answer { target, sdp } => ClientModel::Answer {
                target: target@,
                sdp: sdp@,
            },
            ClientMessage::Ice { target, candidate } => ClientModel::Ice {
                target: target@,
                candidate: candidate@,
            },
        }
    }
}

impl View for ServerMessage {
    type V = ServerModel;

    open spec fn view(&self) -> ServerModel {
        match *self {
            ServerMessage::Challenge { nonce } => ServerModel::Challenge { nonce: nonce@ },
            ServerMessage::Registered { ice_servers } => ServerModel::Registered {
                ice_servers: ice_view(ice_servers@),
            },
            ServerMessage::Peers { peers } => ServerModel::Peers { peers: peers_view(peers@) },
            ServerMessage::Offer { from, sdp } => ServerModel::Offer { from: from@, sdp: sdp@ },
            ServerMessage::Answer { from, sdp } => ServerModel::Answer { from: from@, sdp: sdp@ },
            ServerMessage::Ice { from, candidate } => ServerModel::Ice {
                from: from@,
                candidate: candidate@,
            },
            ServerMessage::Error { code, message } => ServerModel::Error {
                code,
                message: message@,
            },
        }
    }
}

/// A copy of a list of texts.
pub fn clone_texts(v: &Vec<String>) -> (r: Vec<String>)
    ensures
        texts(r@) == texts(v@),
{
    let mut r: Vec<String> = Vec::new();
    let mut i: usize = 0;
    while i < v.len()
        invariant
            i <= v@.len(),
            r@.len() == i,
            forall|j: int| 0 <= j < i ==> (#[trigger] r@[j])@ == v@[j]@,
        decreases v@.len() - i,
    {
        r.push(v[i].clone());
        i += 1;
    }
    assert(texts(r@) =~= texts(v@));
    r
}

} // verus!
