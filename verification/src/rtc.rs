//! The WebRTC host: what it tells the signal server, what it makes of the
//! answers, and what goes over the data channels.
//!
//! Channel layout:
//!   "tether-ctl"   reliable + ordered    Hello, pairing, Resolution, InputEvent
//!   "tether-media" unordered, no retx    FrameData, chunked
//!   "tether-bulk"  reliable + ordered    messages too large for one channel
//!                                        message, chunked
//!
//! A new offer replaces any active peer session: with the shared-secret floor
//! that means a reconnecting controller gets in immediately instead of waiting
//! out ICE disconnect timers.

use bytes::Bytes;
use vstd::prelude::*;
use vstd::utf8::encode_utf8;

use crate::auth::{binding_for, channel_binding};
use crate::buffers::{bytes_of, bytes_slice, max_buffer};
use crate::capture::EncodedFrame;
use crate::chunks::{chunk, chunk_count, chunk_frame};
use crate::crypto::{
    ed25519_public, ed25519_public_key, ed25519_sign, ed25519_signature, hex_encode,
};
use crate::protocol::{
    body, fits_buffer, wire, ClipboardData, Message, MessageModel, MAX_CLIPBOARD_LEN,
};
use crate::session::Phase;
use crate::signal::identity::{payload, register_payload};
use crate::signal::protocol::{
    clone_texts, ice_view, text_opt, texts, Caps, ClientMessage, ClientModel, ErrorCode, IceModel,
    IceServer, ServerMessage, ServerModel,
};
use crate::text::{
    begins_with, chars_begin_with, chars_of, hex_text, same_text, string_of, white_space,
};

pub mod laws;
pub mod rules;

verus! {

#[derive(Debug, Clone)]
pub struct RtcConfig {
    /// ws:// or wss:// URL of the signal server's /ws endpoint.
    pub signal_url: String,
    pub secret: String,
    pub device_id: String,
    pub device_name: String,
    pub stun: Vec<String>,
}

/// A session with the signal server that lasted longer than this means that the
/// server was healthy, in nanoseconds.
pub const HEALTHY_NANOS: u128 = 10_000_000_000;

pub const MIN_BACKOFF_SECS: u64 = 1;

pub const MAX_BACKOFF_SECS: u64 = 30;

/// How long to wait before the next connection to the signal server.
#[derive(Debug, Clone, Copy, PartialEq, Eq, Structural)]
pub struct Backoff {
    pub secs: u64,
}

impl Backoff {
    pub open spec fn wf(self) -> bool {
        MIN_BACKOFF_SECS <= self.secs <= MAX_BACKOFF_SECS
    }

    /// The wait after a session of this length.
    pub open spec fn wait(self, lasted_nanos: u128) -> u64 {
        if lasted_nanos > HEALTHY_NANOS {
            MIN_BACKOFF_SECS
        } else {
            self.secs
        }
    }

    /// A session of this length ended: the backoff afterwards, and the wait.
    pub open spec fn waited(self, lasted_nanos: u128) -> (Backoff, u64) {
        let secs = self.wait(lasted_nanos);
        (
            Backoff {
                secs: if 2 * secs < MAX_BACKOFF_SECS {
                    (2 * secs) as u64
                } else {
                    MAX_BACKOFF_SECS
                },
            },
            secs,
        )
    }

    pub fn new() -> (r: Self)
        ensures
            r.wf(),
            r.secs == MIN_BACKOFF_SECS,
    {
        Backoff { secs: MIN_BACKOFF_SECS }
    }

    /// A session ended; how many seconds to wait. The next wait doubles, up to a
    /// cap; a healthy session starts over.
    pub fn after_session(&mut self, lasted_nanos: u128) -> (secs: u64)
        requires
            old(self).wf(),
        ensures
            final(self).wf(),
            (*final(self), secs) == old(self).waited(lasted_nanos),
            secs == old(self).wait(lasted_nanos),
            final(self).secs == if 2 * secs < MAX_BACKOFF_SECS {
                (2 * secs) as u64
            } else {
                MAX_BACKOFF_SECS
            },
    {
        if lasted_nanos > HEALTHY_NANOS {
            self.secs = MIN_BACKOFF_SECS;
        }
        let secs: u64 = self.secs;
        self.secs = if 2 * secs < MAX_BACKOFF_SECS {
            2 * secs
        } else {
            MAX_BACKOFF_SECS
        };
        secs
    }
}

/// An ICE server for a peer connection.
#[derive(Debug, Clone, PartialEq, Eq)]
pub struct RtcIceServer {
    pub urls: Vec<String>,
    pub username: String,
    pub credential: String,
}

/// An ICE server as a value.
#[verifier::ext_equal]
pub struct RtcIceModel {
    pub urls: Seq<Seq<char>>,
    pub username: Seq<char>,
    pub credential: Seq<char>,
}

impl View for RtcIceServer {
    type V = RtcIceModel;

    open spec fn view(&self) -> RtcIceModel {
        RtcIceModel {
            urls: texts(self.urls@),
            username: self.username@,
            credential: self.credential@,
        }
    }
}

pub open spec fn rtc_ice_view(v: Seq<RtcIceServer>) -> Seq<RtcIceModel> {
    v.map_values(|s: RtcIceServer| s@)
}

/// A text, empty where there is none.
pub open spec fn or_empty(s: Option<Seq<char>>) -> Seq<char> {
    match s {
        Some(s) => s,
        None => Seq::empty(),
    }
}

/// What the server advertised, or the host's own STUN servers where it
/// advertised nothing.
pub open spec fn ice_to_use(servers: Seq<IceModel>, stun: Seq<Seq<char>>) -> Seq<RtcIceModel> {
    if servers.len() == 0 {
        seq![RtcIceModel { urls: stun, username: Seq::empty(), credential: Seq::empty() }]
    } else {
        servers.map_values(
            |s: IceModel|
                RtcIceModel {
                    urls: s.urls,
                    username: or_empty(s.username),
                    credential: or_empty(s.credential),
                },
        )
    }
}

fn text_or_empty(s: &Option<String>) -> (r: String)
    ensures
        r@ == or_empty(text_opt(*s)),
{
    match s {
        Some(s) => s.clone(),
        None => {
            let r: String = String::new();
            assert(r@ =~= Seq::empty());
            r
        },
    }
}

/// Convert signal-server ICE entries for a peer connection, falling back to the
/// host's local STUN config when the server advertised none.
pub fn to_rtc_ice(servers: &Vec<IceServer>, stun: &Vec<String>) -> (r: Vec<RtcIceServer>)
    ensures
        rtc_ice_view(r@) == ice_to_use(ice_view(servers@), texts(stun@)),
{
    let mut r: Vec<RtcIceServer> = Vec::new();
    if servers.len() == 0 {
        let entry: RtcIceServer = RtcIceServer {
            urls: clone_texts(stun),
            username: String::new(),
            credential: String::new(),
        };
        assert(entry.username@ =~= Seq::empty());
        r.push(entry);
        assert(rtc_ice_view(r@) =~= ice_to_use(ice_view(servers@), texts(stun@)));
        return r;
    }
    let ghost want = ice_to_use(ice_view(servers@), texts(stun@));
    let mut i: usize = 0;
    while i < servers.len()
        invariant
            i <= servers@.len(),
            servers@.len() > 0,
            want == ice_to_use(ice_view(servers@), texts(stun@)),
            rtc_ice_view(r@) == want.take(i as int),
        decreases servers@.len() - i,
    {
        let s: &IceServer = &servers[i];
        let entry: RtcIceServer = RtcIceServer {
            urls: clone_texts(&s.urls),
            username: text_or_empty(&s.username),
            credential: text_or_empty(&s.credential),
        };
        let ghost so_far = rtc_ice_view(r@);
        r.push(entry);
        proof {
            assert(ice_view(servers@)[i as int] == s@);
            assert(entry@ == want[i as int]);
            assert(rtc_ice_view(r@) =~= so_far.push(entry@));
            assert(want.take(i as int + 1) =~= want.take(i as int).push(want[i as int]));
        }
        i += 1;
    }
    assert(want.take(i as int) =~= want);
    r
}

fn clone_ice(v: &Vec<RtcIceServer>) -> (r: Vec<RtcIceServer>)
    ensures
        rtc_ice_view(r@) == rtc_ice_view(v@),
{
    let mut r: Vec<RtcIceServer> = Vec::new();
    let mut i: usize = 0;
    while i < v.len()
        invariant
            i <= v@.len(),
            r@.len() == i,
            forall|j: int| 0 <= j < i ==> (#[trigger] r@[j])@ == v@[j]@,
        decreases v@.len() - i,
    {
        let s: &RtcIceServer = &v[i];
        r.push(
            RtcIceServer {
                urls: clone_texts(&s.urls),
                username: s.username.clone(),
                credential: s.credential.clone(),
            },
        );
        i += 1;
    }
    assert(rtc_ice_view(r@) =~= rtc_ice_view(v@));
    r
}

/// The registration a host answers a challenge with: signed for this nonce
/// under the host's identity.
pub open spec fn registration_for(
    device_id: Seq<char>,
    name: Seq<char>,
    secret: Seq<char>,
    nonce: Seq<char>,
    seed: Seq<u8>,
) -> ClientModel {
    ClientModel::Register {
        device_id,
        name,
        caps: Caps { can_host: true, can_control: true },
        auth: secret,
        pubkey: Some(hex_text(ed25519_public(seed))),
        sig: Some(hex_text(ed25519_signature(seed, payload(nonce, device_id)))),
    }
}

/// Answer the server's challenge.
pub fn host_registration(config: &RtcConfig, nonce: &str, seed: &[u8; 32]) -> (r: ClientMessage)
    ensures
        r@ == registration_for(
            config.device_id@,
            config.device_name@,
            config.secret@,
            nonce@,
            seed@,
        ),
{
    let public: [u8; 32] = ed25519_public_key(seed);
    let signed: Vec<u8> = register_payload(nonce, config.device_id.as_str());
    let sig: [u8; 64] = ed25519_sign(seed, signed.as_slice());
    ClientMessage::Register {
        device_id: config.device_id.clone(),
        name: config.device_name.clone(),
        caps: Caps { can_host: true, can_control: true },
        auth: config.secret.clone(),
        pubkey: Some(hex_encode(public.as_slice())),
        sig: Some(hex_encode(sig.as_slice())),
    }
}

/// What the host makes of a message from the signal server.
#[derive(Debug)]
pub enum SignalAction {
    /// Answer the challenge.
    Register { nonce: String },
    /// Start a peer session with these ICE servers; close the active one first
    /// where there is one.
    AnswerOffer { from: String, sdp: String, ice: Vec<RtcIceServer>, close_active: bool },
    /// Hand a candidate to the active session.
    AddCandidate { candidate: String },
    /// The server reports an error.
    Report { code: ErrorCode, message: String },
    /// Give this connection up.
    Fail { reason: String },
    Nothing,
}

/// An action as a value.
#[verifier::ext_equal]
pub enum SignalActionModel {
    Register { nonce: Seq<char> },
    AnswerOffer { from: Seq<char>, sdp: Seq<char>, ice: Seq<RtcIceModel>, close_active: bool },
    AddCandidate { candidate: Seq<char> },
    Report { code: ErrorCode, message: Seq<char> },
    Fail { reason: Seq<char> },
    Nothing,
}

impl View for SignalAction {
    type V = SignalActionModel;

    open spec fn view(&self) -> SignalActionModel {
        match *self {
            SignalAction::Register { nonce } => SignalActionModel::Register { nonce: nonce@ },
            SignalAction::AnswerOffer { from, sdp, ice, close_active } =>
                SignalActionModel::AnswerOffer {
                    from: from@,
                    sdp: sdp@,
                    ice: rtc_ice_view(ice@),
                    close_active,
                },
            SignalAction::AddCandidate { candidate } => SignalActionModel::AddCandidate {
                candidate: candidate@,
            },
            SignalAction::Report { code, message } => SignalActionModel::Report {
                code,
                message: message@,
            },
            SignalAction::Fail { reason } => SignalActionModel::Fail { reason: reason@ },
            SignalAction::Nothing => SignalActionModel::Nothing,
        }
    }
}

/// The host's side of a connection to the signal server: the controller of the
/// active session, and the ICE servers to use.
#[derive(Debug)]
pub struct SignalClient {
    stun: Vec<String>,
    active: Option<String>,
    ice: Vec<RtcIceServer>,
}

/// The host's side as a value.
#[verifier::ext_equal]
pub struct SignalClientModel {
    pub stun: Seq<Seq<char>>,
    pub active: Option<Seq<char>>,
    pub ice: Seq<RtcIceModel>,
}

impl View for SignalClient {
    type V = SignalClientModel;

    closed spec fn view(&self) -> SignalClientModel {
        SignalClientModel {
            stun: texts(self.stun@),
            active: text_opt(self.active),
            ice: rtc_ice_view(self.ice@),
        }
    }
}

/// What a message from the signal server does.
pub open spec fn on_signal(c: SignalClientModel, msg: ServerModel) -> (
    SignalClientModel,
    SignalActionModel,
) {
    match msg {
        ServerModel::Challenge { nonce } => (c, SignalActionModel::Register { nonce }),
        ServerModel::Registered { ice_servers } => (
            SignalClientModel { ice: ice_to_use(ice_servers, c.stun), ..c },
            SignalActionModel::Nothing,
        ),
        ServerModel::Offer { from, sdp } => (
            SignalClientModel { active: None, ..c },
            SignalActionModel::AnswerOffer {
                from,
                sdp,
                ice: c.ice,
                close_active: c.active is Some,
            },
        ),
        ServerModel::Ice { from, candidate } => if c.active == Some(from) {
            (c, SignalActionModel::AddCandidate { candidate })
        } else {
            (c, SignalActionModel::Nothing)
        },
        ServerModel::Error { code, message } => if code == ErrorCode::Replaced {
            (
                c,
                SignalActionModel::Fail {
                    reason: "another tetherd registered this device id: "@ + message,
                },
            )
        } else {
            (c, SignalActionModel::Report { code, message })
        },
        ServerModel::Peers { .. } => (c, SignalActionModel::Nothing),
        ServerModel::Answer { .. } => (c, SignalActionModel::Nothing),
    }
}

/// A host that has just connected to the signal server.
pub open spec fn started_client(stun: Seq<Seq<char>>) -> SignalClientModel {
    SignalClientModel { stun, active: None, ice: ice_to_use(Seq::empty(), stun) }
}

/// A host that has answered a controller's offer.
pub open spec fn answered_client(c: SignalClientModel, from: Seq<char>) -> SignalClientModel {
    SignalClientModel { active: Some(from), ..c }
}

impl SignalClient {
    /// Connected to the signal server; the host's own STUN servers until it
    /// advertises others.
    pub fn new(stun: Vec<String>) -> (r: Self)
        ensures
            r@ == started_client(texts(stun@)),
            r@ == (SignalClientModel {
                stun: texts(stun@),
                active: None,
                ice: ice_to_use(Seq::empty(), texts(stun@)),
            }),
    {
        let none: Vec<IceServer> = Vec::new();
        let ice: Vec<RtcIceServer> = to_rtc_ice(&none, &stun);
        assert(ice_view(none@) =~= Seq::empty());
        SignalClient { stun, active: None, ice }
    }

    /// The signal server has sent a message.
    pub fn on_message(&mut self, msg: ServerMessage) -> (r: SignalAction)
        ensures
            (final(self)@, r@) == on_signal(old(self)@, msg@),
    {
        match msg {
            ServerMessage::Challenge { nonce } => SignalAction::Register { nonce },
            ServerMessage::Registered { ice_servers } => {
                self.ice = to_rtc_ice(&ice_servers, &self.stun);
                SignalAction::Nothing
            },
            ServerMessage::Offer { from, sdp } => {
                let close_active: bool = self.active.is_some();
                self.active = None;
                SignalAction::AnswerOffer { from, sdp, ice: clone_ice(&self.ice), close_active }
            },
            ServerMessage::Ice { from, candidate } => {
                let ours: bool = match &self.active {
                    Some(id) => same_text(id.as_str(), from.as_str()),
                    None => false,
                };
                if ours {
                    SignalAction::AddCandidate { candidate }
                } else {
                    SignalAction::Nothing
                }
            },
            ServerMessage::Error { code, message } => {
                if code == ErrorCode::Replaced {
                    let mut reason: String =
                        "another tetherd registered this device id: ".to_owned();
                    reason.append(message.as_str());
                    SignalAction::Fail { reason }
                } else {
                    SignalAction::Report { code, message }
                }
            },
            ServerMessage::Peers { .. } => SignalAction::Nothing,
            ServerMessage::Answer { .. } => SignalAction::Nothing,
        }
    }

    /// An offer was answered: its session is the active one.
    pub fn answered(&mut self, from: String)
        ensures
            final(self)@ == answered_client(old(self)@, from@),
            final(self)@ == (SignalClientModel { active: Some(from@), ..old(self)@ }),
    {
        self.active = Some(from);
    }
}

/// What a data channel is for.
#[derive(Debug, Clone, Copy, PartialEq, Eq, Structural)]
pub enum Channel {
    Ctl,
    Media,
    Bulk,
    Other,
}

/// The channel of a label.
pub open spec fn channel_of(label: Seq<char>) -> Channel {
    if label == "tether-ctl"@ {
        Channel::Ctl
    } else if label == "tether-media"@ {
        Channel::Media
    } else if label == "tether-bulk"@ {
        Channel::Bulk
    } else {
        Channel::Other
    }
}

/// Tell a data channel by its label.
pub fn channel_for(label: &str) -> (r: Channel)
    ensures
        r == channel_of(label@),
        r == if label@ == "tether-ctl"@ {
            Channel::Ctl
        } else if label@ == "tether-media"@ {
            Channel::Media
        } else if label@ == "tether-bulk"@ {
            Channel::Bulk
        } else {
            Channel::Other
        },
{
    if same_text(label, "tether-ctl") {
        Channel::Ctl
    } else if same_text(label, "tether-media") {
        Channel::Media
    } else if same_text(label, "tether-bulk") {
        Channel::Bulk
    } else {
        Channel::Other
    }
}

/// A deeper send buffer than this means that frames are dropped, in bytes.
pub const MAX_BUFFERED: usize = 1_000_000;

/// Whether chunks are the chunks of a message.
pub open spec fn are_chunks(chunks: Seq<Bytes>, seq: u32, m: MessageModel) -> bool {
    &&& chunks.len() == chunk_count(wire(m).len())
    &&& forall|i: int|
        0 <= i < chunks.len() ==> bytes_of(#[trigger] chunks[i]) == chunk(seq, wire(m), i)
}

/// A frame as the media channel carries it.
fn frame_chunks(frame: EncodedFrame) -> (r: Vec<Bytes>)
    requires
        fits_buffer(frame.message()),
    ensures
        are_chunks(r@, frame.seq, frame.message()),
{
    let seq: u32 = frame.seq;
    let encoded: Bytes = frame.into_message().encode();
    chunk_frame(seq, bytes_slice(&encoded))
}

/// What the media channel does about the latest frame.
#[derive(Debug)]
pub enum MediaStep {
    /// Nothing yet: the controller is not in, or there is no frame.
    Wait,
    /// The send buffer is deep: drop the frame, latest wins.
    Drop,
    /// Send these, in this order.
    Send(Vec<Bytes>),
}

/// Whether a step is the right one: no frame before the controller is in, none
/// into a deep buffer, all chunks of it otherwise.
pub open spec fn right_media_step(
    phase: Phase,
    frame: Option<EncodedFrame>,
    buffered: usize,
    step: MediaStep,
) -> bool {
    match step {
        MediaStep::Wait => phase != Phase::Streaming || frame is None,
        MediaStep::Drop => phase == Phase::Streaming && frame is Some && buffered > MAX_BUFFERED,
        MediaStep::Send(chunks) => phase == Phase::Streaming && frame is Some && buffered
            <= MAX_BUFFERED && are_chunks(chunks@, frame->0.seq, frame->0.message()),
    }
}

/// Decide on the latest frame.
pub fn media_step(phase: Phase, frame: Option<EncodedFrame>, buffered: usize) -> (r: MediaStep)
    requires
        frame is Some ==> fits_buffer(frame->0.message()),
    ensures
        right_media_step(phase, frame, buffered, r),
{
    if !phase.media_allowed() {
        return MediaStep::Wait;
    }
    match frame {
        None => MediaStep::Wait,
        Some(frame) => {
            if buffered > MAX_BUFFERED {
                MediaStep::Drop
            } else {
                MediaStep::Send(frame_chunks(frame))
            }
        },
    }
}

/// Whether a clipboard goes onto the bulk channel as it should: under the next number,
/// and not before the controller is in.
pub open spec fn right_bulk_step(
    phase: Phase,
    seq: u32,
    text: Seq<char>,
    after: u32,
    chunks: Seq<Bytes>,
) -> bool {
    if phase == Phase::Streaming {
        after == (seq + 1) % 0x1_0000_0000 && are_chunks(
            chunks,
            after,
            MessageModel::ClipboardData(text),
        )
    } else {
        after == seq && chunks.len() == 0
    }
}

/// The numbers of bulk messages.
#[derive(Debug, Clone, Copy, PartialEq, Eq, Structural)]
pub struct BulkSender {
    pub seq: u32,
}

impl BulkSender {
    pub fn new() -> (r: Self)
        ensures
            r.seq == 0,
    {
        BulkSender { seq: 0 }
    }

    /// Clipboard content as the bulk channel carries it, under the next number.
    /// Before the controller is in there is none.
    pub fn clipboard_chunks(&mut self, phase: Phase, text: String) -> (r: Vec<Bytes>)
        requires
            encode_utf8(text@).len() <= MAX_CLIPBOARD_LEN,
        ensures
            right_bulk_step(phase, old(self).seq, text@, final(self).seq, r@),
            phase == Phase::Streaming ==> final(self).seq == (old(self).seq + 1) % 0x1_0000_0000
                && are_chunks(r@, final(self).seq, MessageModel::ClipboardData(text@)),
            phase != Phase::Streaming ==> *final(self) == *old(self) && r@.len() == 0,
    {
        if !phase.media_allowed() {
            return Vec::new();
        }
        self.seq = self.seq.wrapping_add(1);
        let message: Message = Message::ClipboardData(ClipboardData { text });
        assert(body(message@).len() == 2 + encode_utf8(text@).len());
        assert(max_buffer() >= 0x3fff_ffff);
        let encoded: Bytes = message.encode();
        chunk_frame(self.seq, bytes_slice(&encoded))
    }
}

/// A text without white space at its start.
pub open spec fn trim_start(s: Seq<char>) -> Seq<char>
    decreases s.len(),
{
    if s.len() > 0 && white_space(s[0]) {
        trim_start(s.skip(1))
    } else {
        s
    }
}

/// A text without white space at its end.
pub open spec fn trim_end(s: Seq<char>) -> Seq<char>
    decreases s.len(),
{
    if s.len() > 0 && white_space(s.last()) {
        trim_end(s.drop_last())
    } else {
        s
    }
}

/// Where the first line feed stands, or the length.
pub open spec fn line_end(s: Seq<char>) -> nat
    decreases s.len(),
{
    if s.len() == 0 || s[0] == '\n' {
        0
    } else {
        1 + line_end(s.skip(1))
    }
}

/// The first line, without its line feed or carriage return and line feed.
pub open spec fn first_line(s: Seq<char>) -> Seq<char> {
    let end = line_end(s) as int;
    if 0 < end < s.len() && s[end - 1] == '\r' {
        s.take(end - 1)
    } else {
        s.take(end)
    }
}

/// The value of a fingerprint line.
pub open spec fn fingerprint_in(line: Seq<char>) -> Option<Seq<char>> {
    let t = trim_end(trim_start(line));
    if begins_with(t, "a=fingerprint:"@) {
        Some(t.skip("a=fingerprint:"@.len() as int))
    } else {
        None
    }
}

/// The value of the first fingerprint line.
pub open spec fn fingerprint(s: Seq<char>) -> Option<Seq<char>>
    decreases s.len(),
{
    if s.len() == 0 {
        None
    } else {
        match fingerprint_in(first_line(s)) {
            Some(v) => Some(v),
            None => if line_end(s) < s.len() {
                fingerprint(s.skip(line_end(s) as int + 1))
            } else {
                None
            },
        }
    }
}

fn find_line_end(v: &Vec<char>, from: usize) -> (end: usize)
    requires
        from <= v@.len(),
    ensures
        from <= end <= v@.len(),
        end - from == line_end(v@.skip(from as int)),
{
    let mut i: usize = from;
    while i < v.len() && v[i] != '\n'
        invariant
            from <= i <= v@.len(),
            line_end(v@.skip(from as int)) == i - from + line_end(v@.skip(i as int)),
        decreases v@.len() - i,
    {
        assert(v@.skip(i as int).skip(1) =~= v@.skip(i as int + 1));
        i += 1;
    }
    i
}

fn trim_bounds(v: &Vec<char>, from: usize, to: usize) -> (r: (usize, usize))
    requires
        from <= to <= v@.len(),
    ensures
        from <= r.0 <= r.1 <= to,
        v@.subrange(r.0 as int, r.1 as int) == trim_end(
            trim_start(v@.subrange(from as int, to as int)),
        ),
{
    let ghost line = v@.subrange(from as int, to as int);
    let mut a: usize = from;
    while a < to && v[a].is_whitespace()
        invariant
            from <= a <= to <= v@.len(),
            line == v@.subrange(from as int, to as int),
            trim_start(line) == trim_start(v@.subrange(a as int, to as int)),
        decreases to - a,
    {
        assert(v@.subrange(a as int, to as int).skip(1) =~= v@.subrange(a as int + 1, to as int));
        a += 1;
    }
    let ghost start = v@.subrange(a as int, to as int);
    assert(trim_start(line) == start);
    let mut b: usize = to;
    while a < b && v[b - 1].is_whitespace()
        invariant
            a <= b <= to <= v@.len(),
            start == v@.subrange(a as int, to as int),
            trim_end(start) == trim_end(v@.subrange(a as int, b as int)),
        decreases b - a,
    {
        assert(v@.subrange(a as int, b as int).drop_last() =~= v@.subrange(
            a as int,
            b as int - 1,
        ));
        b -= 1;
    }
    (a, b)
}

/// Extract the `a=fingerprint:` value from an SDP (first occurrence).
pub fn sdp_fingerprint(sdp: &str) -> (r: Option<String>)
    ensures
        text_opt(r) == fingerprint(sdp@),
{
    let v: Vec<char> = chars_of(sdp);
    proof {
        reveal_strlit("a=fingerprint:");
    }
    let mut from: usize = 0;
    assert(v@.skip(0) =~= sdp@);
    while from < v.len()
        invariant
            from <= v@.len(),
            "a=fingerprint:"@.len() == 14,
            fingerprint(sdp@) == fingerprint(v@.skip(from as int)),
        decreases v@.len() - from,
    {
        let ghost rest = v@.skip(from as int);
        let end: usize = find_line_end(&v, from);
        let line_to: usize = if from < end && end < v.len() && v[end - 1] == '\r' {
            end - 1
        } else {
            end
        };
        assert(v@.subrange(from as int, line_to as int) =~= first_line(rest));
        let (a, b) = trim_bounds(&v, from, line_to);
        if chars_begin_with(&v, a, b, "a=fingerprint:") {
            assert(v@.subrange(a as int, b as int).skip(14) =~= v@.subrange(a + 14, b as int));
            return Some(string_of(&v, a + 14, b));
        }
        if end >= v.len() {
            return None;
        }
        assert(rest.skip(line_end(rest) as int + 1) =~= v@.skip(end + 1));
        from = end + 1;
    }
    None
}

/// The channel binding of a connection, from the two descriptions: fixed where a
/// fingerprint is missing.
pub open spec fn connection_binding(
    local: Option<Seq<char>>,
    remote: Option<Seq<char>>,
) -> Seq<u8> {
    let l = match local {
        Some(sdp) => fingerprint(sdp),
        None => None,
    };
    let r = match remote {
        Some(sdp) => fingerprint(sdp),
        None => None,
    };
    if l is Some && r is Some {
        binding_for(l->0, r->0)
    } else {
        binding_for("tether-no-fp"@, "tether-no-fp"@)
    }
}

fn fingerprint_of(sdp: &Option<String>) -> (r: Option<String>)
    ensures
        text_opt(r) == match text_opt(*sdp) {
            Some(s) => fingerprint(s),
            None => None,
        },
{
    match sdp {
        Some(sdp) => sdp_fingerprint(sdp.as_str()),
        None => None,
    }
}

/// Derive the pairing channel binding from the negotiated DTLS fingerprints,
/// read from this peer's local + remote SDP. Under an honest connection both
/// ends compute the same value; a relay that swaps fingerprints yields different
/// values on each side, so the channel-bound pairing proof fails. Where a
/// fingerprint is missing, pairing still requires the code but loses that
/// resistance.
pub fn dtls_channel_binding(local_sdp: &Option<String>, remote_sdp: &Option<String>) -> (r: [u8;
    32])
    ensures
        r@ == connection_binding(text_opt(*local_sdp), text_opt(*remote_sdp)),
{
    let local: Option<String> = fingerprint_of(local_sdp);
    let remote: Option<String> = fingerprint_of(remote_sdp);
    match (local, remote) {
        (Some(l), Some(r)) => channel_binding(l.as_str(), r.as_str()),
        _ => channel_binding("tether-no-fp", "tether-no-fp"),
    }
}

} // verus!
