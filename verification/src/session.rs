//! A controller's session with the host, on either transport: the Hello
//! exchange, the door that devices pass, and where each message goes.

use vstd::prelude::*;

use crate::auth::{
    attempt, binding_for, channel_binding, may_trip, room_for_lockout, token_ok, AuthModel,
    OutcomeModel, PairOutcome, PairingAuth,
};
use crate::capture::{displays_view, DisplayInfo, DisplayModel, EncodedFrame};
use crate::input::{CommandModel, InjectCommand};
use crate::protocol::{
    parse, ClipboardData, DecodeError, Decoded, DecodedModel, Hello, Message, MessageModel,
    Resolution, Role, CAP_CAN_CONTROL, CAP_CAN_HOST, PROTOCOL_VERSION,
};
use crate::signal::protocol::text_opt;
use crate::text::{decimal, push_numeral};

pub mod laws;

verus! {

/// How long a peer may take for its Hello, in seconds.
pub const HANDSHAKE_TIMEOUT_SECS: u64 = 5;

/// Device-pairing enforcement policy. The door closes once any device is
/// paired or `require_pairing` is set, so a host that has admitted a device
/// can't also be reached over the unauthenticated path. `allow_unpaired` is an
/// explicit dev/LAN escape that keeps the door open.
#[derive(Debug, Clone, Copy, PartialEq, Eq, Structural)]
pub struct AuthPolicy {
    pub require_pairing: bool,
    pub allow_unpaired: bool,
}

/// A controller presents the token of an earlier pairing (or none).
#[derive(Debug, Clone, PartialEq, Eq)]
pub struct Auth {
    pub device_id: String,
    pub token: String,
}

#[derive(Debug, Clone, Copy, PartialEq, Eq, Structural)]
pub struct AuthResult {
    pub ok: bool,
}

/// A controller proves that it knows the armed code.
#[derive(Debug, Clone, PartialEq, Eq)]
pub struct PairRequest {
    pub device_id: String,
    pub name: String,
    pub proof_bytes: Vec<u8>,
}

#[derive(Debug, Clone, PartialEq, Eq)]
pub struct PairResult {
    pub ok: bool,
    pub token: String,
}

/// A controller picks the display to capture.
#[derive(Debug, Clone, Copy, PartialEq, Eq, Structural)]
pub struct SelectDisplay {
    pub id: u32,
}

/// Messages at the door and of display selection.
#[derive(Debug, Clone, PartialEq, Eq)]
pub enum ControlMessage {
    Auth(Auth),
    AuthResult(AuthResult),
    PairRequest(PairRequest),
    PairResult(PairResult),
    Displays(Vec<DisplayInfo>),
    SelectDisplay(SelectDisplay),
}

/// A control message as a value.
#[verifier::ext_equal]
pub enum ControlModel {
    Auth { device_id: Seq<char>, token: Seq<char> },
    AuthResult { ok: bool },
    PairRequest { device_id: Seq<char>, name: Seq<char>, given: Seq<u8> },
    PairResult { ok: bool, token: Seq<char> },
    Displays(Seq<DisplayModel>),
    SelectDisplay { id: u32 },
}

impl View for ControlMessage {
    type V = ControlModel;

    open spec fn view(&self) -> ControlModel {
        match *self {
            ControlMessage::Auth(a) => ControlModel::Auth {
                device_id: a.device_id@,
                token: a.token@,
            },
            ControlMessage::AuthResult(a) => ControlModel::AuthResult { ok: a.ok },
            ControlMessage::PairRequest(p) => ControlModel::PairRequest {
                device_id: p.device_id@,
                name: p.name@,
                given: p.proof_bytes@,
            },
            ControlMessage::PairResult(p) => ControlModel::PairResult {
                ok: p.ok,
                token: p.token@,
            },
            ControlMessage::Displays(v) => ControlModel::Displays(displays_view(v@)),
            ControlMessage::SelectDisplay(s) => ControlModel::SelectDisplay { id: s.id },
        }
    }
}

/// What was decided at the door.
#[derive(Debug, Clone, Copy, PartialEq, Eq, Structural)]
pub enum AuthDecision {
    /// The controller is in.
    Proceed,
    /// The session ends.
    Reject,
    /// The door stays shut; the controller may go on.
    Continue,
}

/// Whether a controller must prove itself.
pub open spec fn auth_required(policy: AuthPolicy, a: AuthModel) -> bool {
    !policy.allow_unpaired && (policy.require_pairing || a.devices != Map::<
        Seq<char>,
        crate::auth::DeviceModel,
    >::empty())
}

/// What a pairing attempt is answered: only success lets in, anything else ends
/// the session.
pub open spec fn pair_answer(outcome: OutcomeModel) -> (ControlModel, AuthDecision) {
    match outcome {
        OutcomeModel::Paired { token } => (
            ControlModel::PairResult { ok: true, token },
            AuthDecision::Proceed,
        ),
        _ => (ControlModel::PairResult { ok: false, token: Seq::empty() }, AuthDecision::Reject),
    }
}

/// What a message at the door does, what is answered, and what is decided.
pub open spec fn at_door(
    a: AuthModel,
    policy: AuthPolicy,
    msg: ControlModel,
    binding: Seq<u8>,
    now: u64,
) -> (AuthModel, Option<ControlModel>, AuthDecision) {
    match msg {
        ControlModel::Auth { device_id, token } => {
            let ok = !auth_required(policy, a) || token_ok(a, device_id, token);
            (
                a,
                Some(ControlModel::AuthResult { ok }),
                if ok {
                    AuthDecision::Proceed
                } else {
                    AuthDecision::Continue
                },
            )
        },
        ControlModel::PairRequest { device_id, name, given } => {
            let (after, outcome) = attempt(a, device_id, name, given, binding, now);
            (after, Some(pair_answer(outcome).0), pair_answer(outcome).1)
        },
        _ => (a, None, AuthDecision::Continue),
    }
}

/// An optional control message as a value.
pub open spec fn control_opt(m: Option<ControlMessage>) -> Option<ControlModel> {
    match m {
        Some(m) => Some(m@),
        None => None,
    }
}

/// Take a message at the door: what to answer, and what was decided. Shared by
/// both transports.
pub fn handle_auth_message(
    auth: &mut PairingAuth,
    policy: AuthPolicy,
    msg: &ControlMessage,
    binding: &[u8; 32],
    now_unix: u64,
) -> (r: (Option<ControlMessage>, AuthDecision))
    requires
        old(auth).wf(),
        msg@ is PairRequest && may_trip(old(auth)@, now_unix) ==> room_for_lockout(
            old(auth)@,
            now_unix,
        ),
    ensures
        final(auth).wf(),
        (final(auth)@, control_opt(r.0), r.1) == at_door(
            old(auth)@,
            policy,
            msg@,
            binding@,
            now_unix,
        ),
{
    match msg {
        ControlMessage::Auth(a) => {
            let active: bool = !policy.allow_unpaired && (policy.require_pairing
                || !auth.is_empty());
            let ok: bool = !active || auth.verify_token(a.device_id.as_str(), a.token.as_str());
            let decision: AuthDecision = if ok {
                AuthDecision::Proceed
            } else {
                AuthDecision::Continue
            };
            (Some(ControlMessage::AuthResult(AuthResult { ok })), decision)
        },
        ControlMessage::PairRequest(p) => {
            let outcome: PairOutcome = auth.verify_pairing(
                p.device_id.as_str(),
                p.name.as_str(),
                p.proof_bytes.as_slice(),
                binding,
                now_unix,
            );
            let (answer, decision) = answer_pairing(outcome);
            (Some(answer), decision)
        },
        _ => (None, AuthDecision::Continue),
    }
}

/// Answer a pairing attempt by its outcome.
pub fn answer_pairing(outcome: PairOutcome) -> (r: (ControlMessage, AuthDecision))
    ensures
        (r.0@, r.1) == pair_answer(outcome@),
{
    match outcome {
        PairOutcome::Paired { token } => (
            ControlMessage::PairResult(PairResult { ok: true, token }),
            AuthDecision::Proceed,
        ),
        _ => {
            let answer: ControlMessage = ControlMessage::PairResult(
                PairResult { ok: false, token: String::new() },
            );
            assert(answer@ =~= ControlModel::PairResult { ok: false, token: Seq::empty() });
            (answer, AuthDecision::Reject)
        },
    }
}

/// The channel binding of the LAN transport, which has no fingerprints.
pub open spec fn ws_binding() -> Seq<u8> {
    binding_for("tether-ws"@, "tether-ws"@)
}

/// The channel binding of the LAN transport, which has no fingerprints.
pub fn ws_channel_binding() -> (r: [u8; 32])
    ensures
        r@ == ws_binding(),
        r@ == binding_for("tether-ws"@, "tether-ws"@),
{
    channel_binding("tether-ws", "tether-ws")
}

pub open spec fn role_name(role: Role) -> Seq<char> {
    match role {
        Role::Host => "Host"@,
        Role::Controller => "Controller"@,
    }
}

/// Why a peer's Hello is refused, if so: the first reason.
pub open spec fn hello_problem(hello: Hello) -> Option<Seq<char>> {
    if hello.version != PROTOCOL_VERSION {
        Some(
            "protocol version mismatch: controller speaks v"@ + decimal(hello.version as nat)
                + ", host speaks v"@ + decimal(PROTOCOL_VERSION as nat),
        )
    } else if hello.role != Role::Controller {
        Some("peer Hello has role "@ + role_name(hello.role) + ", expected Controller"@)
    } else if hello.capabilities & CAP_CAN_CONTROL == 0 {
        Some("peer lacks can_control capability"@)
    } else {
        None
    }
}

/// Shared by both transports.
pub fn validate_controller_hello(hello: &Hello) -> (r: Result<(), String>)
    ensures
        match r {
            Ok(()) => hello_problem(*hello) is None,
            Err(e) => hello_problem(*hello) == Some(e@),
        },
{
    if hello.version != PROTOCOL_VERSION {
        let mut e: String = "protocol version mismatch: controller speaks v".to_owned();
        push_numeral(&mut e, hello.version as u64, 10);
        e.append(", host speaks v");
        push_numeral(&mut e, PROTOCOL_VERSION as u64, 10);
        return Err(e);
    }
    if hello.role != Role::Controller {
        let mut e: String = "peer Hello has role ".to_owned();
        match hello.role {
            Role::Host => e.append("Host"),
            Role::Controller => e.append("Controller"),
        }
        e.append(", expected Controller");
        return Err(e);
    }
    if hello.capabilities & CAP_CAN_CONTROL == 0 {
        return Err("peer lacks can_control capability".to_owned());
    }
    Ok(())
}

/// The host's Hello.
pub open spec fn host_hello_model() -> MessageModel {
    MessageModel::Hello(
        Hello {
            version: PROTOCOL_VERSION,
            role: Role::Host,
            capabilities: CAP_CAN_HOST | CAP_CAN_CONTROL,
        },
    )
}

pub fn host_hello() -> (r: Message)
    ensures
        r@ == host_hello_model(),
{
    Message::Hello(
        Hello {
            version: PROTOCOL_VERSION,
            role: Role::Host,
            capabilities: CAP_CAN_HOST | CAP_CAN_CONTROL,
        },
    )
}

/// Why a peer's first message is no acceptable Hello.
#[derive(Debug, PartialEq, Eq)]
pub enum HelloProblem {
    /// The bytes are no message.
    Undecodable(DecodeError),
    /// It is some other message, or none that is complete.
    NotHello,
    /// The host does not take such a peer.
    Refused(String),
}

/// What is wrong with a first message, as a value.
#[verifier::ext_equal]
pub enum HelloProblemModel {
    Undecodable(DecodeError),
    NotHello,
    Refused(Seq<char>),
}

impl View for HelloProblem {
    type V = HelloProblemModel;

    open spec fn view(&self) -> HelloProblemModel {
        match *self {
            HelloProblem::Undecodable(e) => HelloProblemModel::Undecodable(e),
            HelloProblem::NotHello => HelloProblemModel::NotHello,
            HelloProblem::Refused(e) => HelloProblemModel::Refused(e@),
        }
    }
}

/// A peer's first message: an acceptable Hello, or what is wrong with it.
pub open spec fn greeting(bytes: Seq<u8>) -> Result<Hello, HelloProblemModel> {
    match parse(bytes) {
        Err(e) => Err(HelloProblemModel::Undecodable(e)),
        Ok(DecodedModel::Message { message: MessageModel::Hello(h), .. }) => match hello_problem(
            h,
        ) {
            None => Ok(h),
            Some(e) => Err(HelloProblemModel::Refused(e)),
        },
        Ok(_) => Err(HelloProblemModel::NotHello),
    }
}

/// Read a peer's first message. The host answers an acceptable one with its own
/// Hello and ends the session otherwise.
pub fn read_hello(bytes: &[u8]) -> (r: Result<Hello, HelloProblem>)
    ensures
        match r {
            Ok(h) => greeting(bytes@) == Ok::<Hello, HelloProblemModel>(h),
            Err(e) => greeting(bytes@) == Err::<Hello, HelloProblemModel>(e@),
        },
{
    match Message::decode(bytes) {
        Err(e) => Err(HelloProblem::Undecodable(e)),
        Ok(Decoded::Message { message: Message::Hello(h), .. }) => match validate_controller_hello(
            &h,
        ) {
            Ok(()) => Ok(h),
            Err(e) => Err(HelloProblem::Refused(e)),
        },
        Ok(_) => Err(HelloProblem::NotHello),
    }
}

/// Where a message from a controller goes.
#[derive(Debug)]
pub enum Incoming {
    /// To the injector.
    Inject(InjectCommand),
    /// To the host's clipboard.
    Clipboard(String),
    /// Skipped: a type this version does not understand.
    UnknownType(u8),
    /// Dropped: nothing a controller should send.
    Unexpected,
    /// Dropped: no message.
    Undecodable(DecodeError),
}

/// Where a message goes, as a value.
#[verifier::ext_equal]
pub enum IncomingModel {
    Inject(CommandModel),
    Clipboard(Seq<char>),
    UnknownType(u8),
    Unexpected,
    Undecodable(DecodeError),
}

impl View for Incoming {
    type V = IncomingModel;

    open spec fn view(&self) -> IncomingModel {
        match *self {
            Incoming::Inject(c) => IncomingModel::Inject(c@),
            Incoming::Clipboard(text) => IncomingModel::Clipboard(text@),
            Incoming::UnknownType(t) => IncomingModel::UnknownType(t),
            Incoming::Unexpected => IncomingModel::Unexpected,
            Incoming::Undecodable(e) => IncomingModel::Undecodable(e),
        }
    }
}

/// Where what stands at the front of a controller's bytes goes.
pub open spec fn routed(bytes: Seq<u8>) -> IncomingModel {
    match parse(bytes) {
        Ok(DecodedModel::Message { message: MessageModel::InputEvent(ev), .. }) =>
            IncomingModel::Inject(CommandModel::Event(ev)),
        Ok(DecodedModel::Message { message: MessageModel::TextInput(text), .. }) =>
            IncomingModel::Inject(CommandModel::Text(text)),
        Ok(DecodedModel::Message { message: MessageModel::ClipboardData(text), .. }) =>
            IncomingModel::Clipboard(text),
        Ok(DecodedModel::Unknown { msg_type, .. }) => IncomingModel::UnknownType(msg_type),
        Ok(_) => IncomingModel::Unexpected,
        Err(e) => IncomingModel::Undecodable(e),
    }
}

/// Route a message from a controller.
pub fn handle_incoming(bytes: &[u8]) -> (r: Incoming)
    ensures
        r@ == routed(bytes@),
{
    match Message::decode(bytes) {
        Ok(Decoded::Message { message: Message::InputEvent(ev), .. }) => Incoming::Inject(
            InjectCommand::Event(ev),
        ),
        Ok(Decoded::Message { message: Message::TextInput(t), .. }) => Incoming::Inject(
            InjectCommand::Text(t.text),
        ),
        Ok(Decoded::Message { message: Message::ClipboardData(c), .. }) => Incoming::Clipboard(
            c.text,
        ),
        Ok(Decoded::Unknown { msg_type, .. }) => Incoming::UnknownType(msg_type),
        Ok(_) => Incoming::Unexpected,
        Err(e) => Incoming::Undecodable(e),
    }
}

/// The text of a clipboard message, and of no other.
pub open spec fn clipboard_of(bytes: Seq<u8>) -> Option<Seq<char>> {
    match parse(bytes) {
        Ok(DecodedModel::Message { message: MessageModel::ClipboardData(text), .. }) => Some(text),
        _ => None,
    }
}

/// What a reassembled bulk message delivers: clipboard content, and nothing else,
/// from a controller that is in.
pub open spec fn bulk_taken(phase: Phase, bytes: Seq<u8>) -> Option<Seq<char>> {
    if phase == Phase::Streaming {
        clipboard_of(bytes)
    } else {
        None
    }
}

/// Take a reassembled bulk message: clipboard content, and nothing else, from a
/// controller that is in.
pub fn bulk_clipboard(phase: Phase, bytes: &[u8]) -> (r: Option<String>)
    ensures
        text_opt(r) == bulk_taken(phase, bytes@),
        text_opt(r) == if phase == Phase::Streaming {
            clipboard_of(bytes@)
        } else {
            None
        },
{
    if !phase.media_allowed() {
        return None;
    }
    match Message::decode(bytes) {
        Ok(Decoded::Message { message: Message::ClipboardData(c), .. }) => Some(c.text),
        _ => None,
    }
}

/// Messages as values.
pub open spec fn messages_view(v: Seq<Message>) -> Seq<MessageModel> {
    v.map_values(|m: Message| m@)
}

/// What a controller is sent once it is in, and not before: the resolution, then
/// the clipboard where there is something on it.
pub open spec fn opening(
    phase: Phase,
    resolution: Resolution,
    clipboard: Option<Seq<char>>,
) -> Seq<MessageModel> {
    if phase != Phase::Streaming {
        Seq::empty()
    } else {
        match clipboard {
            Some(text) => seq![
                MessageModel::Resolution(resolution),
                MessageModel::ClipboardData(text),
            ],
            None => seq![MessageModel::Resolution(resolution)],
        }
    }
}

pub fn opening_messages(phase: Phase, resolution: Resolution, clipboard: Option<String>) -> (r: Vec<
    Message,
>)
    ensures
        messages_view(r@) == opening(phase, resolution, text_opt(clipboard)),
{
    let mut r: Vec<Message> = Vec::new();
    if phase.media_allowed() {
        r.push(Message::Resolution(resolution));
        if let Some(text) = clipboard {
            r.push(Message::ClipboardData(ClipboardData { text }));
        }
    }
    assert(messages_view(r@) =~= opening(phase, resolution, text_opt(clipboard)));
    r
}

/// Something happened in a session.
#[derive(Debug)]
pub enum SessionEvent {
    /// The latest frame changed; there may be none yet.
    Frame(Option<EncodedFrame>),
    FramesClosed,
    Resolution(Resolution),
    ResolutionClosed,
    /// The host's clipboard changed; there may be nothing on it.
    Clipboard(Option<String>),
    ClipboardClosed,
    /// The host's displays changed.
    Displays(Vec<DisplayInfo>),
    /// The controller sent a message.
    Binary(Vec<u8>),
    /// The controller picked a display.
    Select(SelectDisplay),
    /// The controller sent something that is no message (text, ping, pong).
    OtherFrame,
    /// The controller went away.
    PeerClosed,
    /// The connection failed.
    PeerFailed,
}

/// What a session does about an event.
#[derive(Debug)]
pub enum SessionAction {
    Send(Message),
    SendControl(ControlMessage),
    Deliver(Incoming),
    SwitchDisplay(u32),
    Nothing,
    /// The session ends as it should.
    End,
    /// The session ends with an error.
    Fail(String),
}

/// An event as a value.
#[verifier::ext_equal]
pub enum EventModel {
    Frame(Option<MessageModel>),
    FramesClosed,
    Resolution(Resolution),
    ResolutionClosed,
    Clipboard(Option<Seq<char>>),
    ClipboardClosed,
    Displays(Seq<DisplayModel>),
    Binary(Seq<u8>),
    Select(u32),
    OtherFrame,
    PeerClosed,
    PeerFailed,
}

/// An action as a value.
#[verifier::ext_equal]
pub enum ActionModel {
    Send(MessageModel),
    SendControl(ControlModel),
    Deliver(IncomingModel),
    SwitchDisplay(u32),
    Nothing,
    End,
    Fail(Seq<char>),
}

impl View for SessionEvent {
    type V = EventModel;

    open spec fn view(&self) -> EventModel {
        match *self {
            SessionEvent::Frame(Some(f)) => EventModel::Frame(Some(f.message())),
            SessionEvent::Frame(None) => EventModel::Frame(None),
            SessionEvent::FramesClosed => EventModel::FramesClosed,
            SessionEvent::Resolution(r) => EventModel::Resolution(r),
            SessionEvent::ResolutionClosed => EventModel::ResolutionClosed,
            SessionEvent::Clipboard(t) => EventModel::Clipboard(
                text_opt(t),
            ),
            SessionEvent::ClipboardClosed => EventModel::ClipboardClosed,
            SessionEvent::Displays(v) => EventModel::Displays(displays_view(v@)),
            SessionEvent::Binary(b) => EventModel::Binary(b@),
            SessionEvent::Select(s) => EventModel::Select(s.id),
            SessionEvent::OtherFrame => EventModel::OtherFrame,
            SessionEvent::PeerClosed => EventModel::PeerClosed,
            SessionEvent::PeerFailed => EventModel::PeerFailed,
        }
    }
}

impl View for SessionAction {
    type V = ActionModel;

    open spec fn view(&self) -> ActionModel {
        match *self {
            SessionAction::Send(m) => ActionModel::Send(m@),
            SessionAction::SendControl(m) => ActionModel::SendControl(m@),
            SessionAction::Deliver(i) => ActionModel::Deliver(i@),
            SessionAction::SwitchDisplay(id) => ActionModel::SwitchDisplay(id),
            SessionAction::Nothing => ActionModel::Nothing,
            SessionAction::End => ActionModel::End,
            SessionAction::Fail(e) => ActionModel::Fail(e@),
        }
    }
}

/// What an event makes a session do. Before the controller is in, nothing is sent
/// or delivered.
pub open spec fn reaction(phase: Phase, ev: EventModel) -> ActionModel {
    match ev {
        EventModel::FramesClosed => ActionModel::Fail("frame source closed"@),
        EventModel::ResolutionClosed => ActionModel::Fail("resolution source closed"@),
        EventModel::ClipboardClosed => ActionModel::Fail("clipboard source closed"@),
        EventModel::PeerClosed => ActionModel::End,
        EventModel::PeerFailed => ActionModel::End,
        _ => if phase != Phase::Streaming {
            ActionModel::Nothing
        } else {
            match ev {
                EventModel::Frame(Some(m)) => ActionModel::Send(m),
                EventModel::Resolution(r) => ActionModel::Send(MessageModel::Resolution(r)),
                EventModel::Clipboard(Some(text)) => ActionModel::Send(
                    MessageModel::ClipboardData(text),
                ),
                EventModel::Displays(v) => ActionModel::SendControl(ControlModel::Displays(v)),
                EventModel::Binary(b) => ActionModel::Deliver(routed(b)),
                EventModel::Select(id) => ActionModel::SwitchDisplay(id),
                _ => ActionModel::Nothing,
            }
        },
    }
}

/// One step of a session.
pub fn session_step(phase: Phase, event: SessionEvent) -> (r: SessionAction)
    ensures
        r@ == reaction(phase, event@),
{
    match event {
        SessionEvent::FramesClosed => SessionAction::Fail("frame source closed".to_owned()),
        SessionEvent::ResolutionClosed => SessionAction::Fail(
            "resolution source closed".to_owned(),
        ),
        SessionEvent::ClipboardClosed => SessionAction::Fail("clipboard source closed".to_owned()),
        SessionEvent::PeerClosed => SessionAction::End,
        SessionEvent::PeerFailed => SessionAction::End,
        _ => {
            if !phase.media_allowed() {
                return SessionAction::Nothing;
            }
            match event {
                SessionEvent::Frame(Some(f)) => SessionAction::Send(f.into_message()),
                SessionEvent::Resolution(r) => SessionAction::Send(Message::Resolution(r)),
                SessionEvent::Clipboard(Some(text)) => SessionAction::Send(
                    Message::ClipboardData(ClipboardData { text }),
                ),
                SessionEvent::Displays(v) => SessionAction::SendControl(
                    ControlMessage::Displays(v),
                ),
                SessionEvent::Binary(b) => SessionAction::Deliver(handle_incoming(b.as_slice())),
                SessionEvent::Select(s) => SessionAction::SwitchDisplay(s.id),
                _ => SessionAction::Nothing,
            }
        },
    }
}

/// How far a session has come.
#[derive(Debug, Clone, Copy, PartialEq, Eq, Structural)]
pub enum Phase {
    /// Waiting for the peer's Hello.
    Greeting,
    /// Hello accepted; waiting at the door.
    Authenticating,
    /// The controller is in: frames go out, input comes in.
    Streaming,
    Ended,
}

impl Phase {
    /// Whether the controller is in and the session goes on.
    pub open spec fn streams(self) -> bool {
        self == Phase::Streaming
    }

    /// The phase after a first message was read.
    pub open spec fn after_hello(self, accepted: bool) -> Phase {
        if self == Phase::Greeting && accepted {
            Phase::Authenticating
        } else {
            Phase::Ended
        }
    }

    /// The phase after a decision at the door.
    pub open spec fn after_decision(self, decision: AuthDecision) -> Phase {
        if self != Phase::Authenticating {
            self
        } else {
            match decision {
                AuthDecision::Proceed => Phase::Streaming,
                AuthDecision::Reject => Phase::Ended,
                AuthDecision::Continue => Phase::Authenticating,
            }
        }
    }

    pub fn on_hello(self, accepted: bool) -> (r: Phase)
        ensures
            r == self.after_hello(accepted),
    {
        if self == Phase::Greeting && accepted {
            Phase::Authenticating
        } else {
            Phase::Ended
        }
    }

    pub fn on_decision(self, decision: AuthDecision) -> (r: Phase)
        ensures
            r == self.after_decision(decision),
    {
        if self != Phase::Authenticating {
            return self;
        }
        match decision {
            AuthDecision::Proceed => Phase::Streaming,
            AuthDecision::Reject => Phase::Ended,
            AuthDecision::Continue => Phase::Authenticating,
        }
    }

    /// Whether media and bulk channels may carry anything.
    pub fn media_allowed(self) -> (r: bool)
        ensures
            r == self.streams(),
            r == (self == Phase::Streaming),
    {
        self == Phase::Streaming
    }
}

/// What a session takes in, from the peer's first message to its last.
#[derive(Debug)]
pub enum SessionInput {
    /// The peer's first message.
    First(Vec<u8>),
    /// A control message.
    Control(ControlMessage),
    /// What the host has to show at this time, to open with.
    Opening { resolution: Resolution, clipboard: Option<String> },
    Event(SessionEvent),
}

/// An input as a value.
#[verifier::ext_equal]
pub enum SessionInputModel {
    First(Seq<u8>),
    Control(ControlModel),
    Opening { resolution: Resolution, clipboard: Option<Seq<char>> },
    Event(EventModel),
}

impl View for SessionInput {
    type V = SessionInputModel;

    open spec fn view(&self) -> SessionInputModel {
        match *self {
            SessionInput::First(b) => SessionInputModel::First(b@),
            SessionInput::Control(m) => SessionInputModel::Control(m@),
            SessionInput::Opening { resolution, clipboard } => SessionInputModel::Opening {
                resolution,
                clipboard: text_opt(clipboard),
            },
            SessionInput::Event(ev) => SessionInputModel::Event(ev@),
        }
    }
}

/// Actions as values.
pub open spec fn actions_view(v: Seq<SessionAction>) -> Seq<ActionModel> {
    v.map_values(|a: SessionAction| a@)
}

/// What is wrong with a first message, in words.
pub open spec fn greeting_problem(e: HelloProblemModel) -> Seq<char> {
    match e {
        HelloProblemModel::Undecodable(e) => e.text(),
        HelloProblemModel::NotHello => "expected Hello"@,
        HelloProblemModel::Refused(e) => e,
    }
}

/// What an input does to a session and to the host's pairing state, and what the
/// session does about it, in order.
pub open spec fn taken_in(
    phase: Phase,
    a: AuthModel,
    policy: AuthPolicy,
    binding: Seq<u8>,
    input: SessionInputModel,
    now: u64,
) -> (Phase, AuthModel, Seq<ActionModel>) {
    match input {
        SessionInputModel::First(bytes) => if phase != Phase::Greeting {
            (phase, a, Seq::empty())
        } else {
            match greeting(bytes) {
                Ok(_) => (
                    phase.after_hello(true),
                    a,
                    seq![ActionModel::Send(host_hello_model())],
                ),
                Err(e) => (
                    phase.after_hello(false),
                    a,
                    seq![ActionModel::Fail(greeting_problem(e))],
                ),
            }
        },
        SessionInputModel::Control(msg) => if phase == Phase::Authenticating {
            let (after, answer, decision) = at_door(a, policy, msg, binding, now);
            let reply = match answer {
                Some(m) => seq![ActionModel::SendControl(m)],
                None => Seq::empty(),
            };
            (
                phase.after_decision(decision),
                after,
                if decision == AuthDecision::Reject {
                    reply.push(ActionModel::End)
                } else {
                    reply
                },
            )
        } else {
            match msg {
                ControlModel::SelectDisplay { id } => (
                    phase,
                    a,
                    seq![reaction(phase, EventModel::Select(id))],
                ),
                _ => (phase, a, Seq::empty()),
            }
        },
        SessionInputModel::Opening { resolution, clipboard } => (
            phase,
            a,
            opening(phase, resolution, clipboard).map_values(
                |m: MessageModel| ActionModel::Send(m),
            ),
        ),
        SessionInputModel::Event(ev) => {
            let action = reaction(phase, ev);
            (
                if action is End || action is Fail {
                    Phase::Ended
                } else {
                    phase
                },
                a,
                seq![action],
            )
        },
    }
}

/// Whether the clock and the counters have room for an input.
pub open spec fn room_for(phase: Phase, a: AuthModel, input: SessionInputModel, now: u64) -> bool {
    phase == Phase::Authenticating && input is Control && input->Control_0 is PairRequest
        && may_trip(a, now) ==> room_for_lockout(a, now)
}

/// Take an input in: one step of the session, from the greeting to its end. What
/// comes back is to be done in order.
pub fn advance(
    phase: &mut Phase,
    auth: &mut PairingAuth,
    policy: AuthPolicy,
    binding: &[u8; 32],
    input: SessionInput,
    now_unix: u64,
) -> (actions: Vec<SessionAction>)
    requires
        old(auth).wf(),
        room_for(*old(phase), old(auth)@, input@, now_unix),
    ensures
        final(auth).wf(),
        (*final(phase), final(auth)@, actions_view(actions@)) == taken_in(
            *old(phase),
            old(auth)@,
            policy,
            binding@,
            input@,
            now_unix,
        ),
{
    let ghost want = taken_in(*phase, auth@, policy, binding@, input@, now_unix);
    let mut actions: Vec<SessionAction> = Vec::new();
    match input {
        SessionInput::First(bytes) => {
            if *phase == Phase::Greeting {
                match read_hello(bytes.as_slice()) {
                    Ok(_) => {
                        *phase = phase.on_hello(true);
                        actions.push(SessionAction::Send(host_hello()));
                    },
                    Err(problem) => {
                        *phase = phase.on_hello(false);
                        actions.push(SessionAction::Fail(problem_text(problem)));
                    },
                }
            }
        },
        SessionInput::Control(msg) => {
            if *phase == Phase::Authenticating {
                let (answer, decision) = handle_auth_message(auth, policy, &msg, binding, now_unix);
                *phase = phase.on_decision(decision);
                if let Some(m) = answer {
                    actions.push(SessionAction::SendControl(m));
                }
                if decision == AuthDecision::Reject {
                    actions.push(SessionAction::End);
                }
            } else {
                match msg {
                    ControlMessage::SelectDisplay(s) => {
                        actions.push(session_step(*phase, SessionEvent::Select(s)));
                    },
                    _ => {},
                }
            }
        },
        SessionInput::Opening { resolution, clipboard } => {
            let messages: Vec<Message> = opening_messages(*phase, resolution, clipboard);
            actions = sends(messages);
        },
        SessionInput::Event(ev) => {
            let action: SessionAction = session_step(*phase, ev);
            match &action {
                SessionAction::End => *phase = Phase::Ended,
                SessionAction::Fail(_) => *phase = Phase::Ended,
                _ => {},
            }
            actions.push(action);
        },
    }
    assert(actions_view(actions@) =~= want.2);
    actions
}

fn problem_text(problem: HelloProblem) -> (r: String)
    ensures
        r@ == greeting_problem(problem@),
{
    match problem {
        HelloProblem::Undecodable(e) => e.message(),
        HelloProblem::NotHello => "expected Hello".to_owned(),
        HelloProblem::Refused(e) => e,
    }
}

fn sends(messages: Vec<Message>) -> (r: Vec<SessionAction>)
    ensures
        actions_view(r@) == messages_view(messages@).map_values(
            |m: MessageModel| ActionModel::Send(m),
        ),
{
    let ghost all = messages@;
    let mut r: Vec<SessionAction> = Vec::new();
    for m in it: messages
        invariant
            it.seq() == all,
            r@.len() == it.index(),
            forall|i: int| 0 <= i < r@.len() ==> (#[trigger] r@[i])@ == ActionModel::Send(all[i]@),
    {
        r.push(SessionAction::Send(m));
    }
    assert(actions_view(r@) =~= messages_view(all).map_values(
        |m: MessageModel| ActionModel::Send(m),
    ));
    r
}

/// What a session may do before the controller is in: greet, answer at the door,
/// and end.
pub open spec fn before_entry(action: ActionModel) -> bool {
    match action {
        ActionModel::Send(m) => m == host_hello_model(),
        ActionModel::SendControl(m) => m is AuthResult || m is PairResult,
        ActionModel::Deliver(_) => false,
        ActionModel::SwitchDisplay(_) => false,
        ActionModel::Nothing => true,
        ActionModel::End => true,
        ActionModel::Fail(_) => true,
    }
}

/// A session after some inputs, each at its time, and all that it did.
pub open spec fn session_after(
    phase: Phase,
    a: AuthModel,
    policy: AuthPolicy,
    binding: Seq<u8>,
    inputs: Seq<(SessionInputModel, u64)>,
) -> (Phase, AuthModel, Seq<ActionModel>)
    decreases inputs.len(),
{
    if inputs.len() == 0 {
        (phase, a, Seq::empty())
    } else {
        let before = session_after(phase, a, policy, binding, inputs.drop_last());
        let step = taken_in(
            before.0,
            before.1,
            policy,
            binding,
            inputs.last().0,
            inputs.last().1,
        );
        (step.0, step.1, before.2 + step.2)
    }
}

/// A session streams only after an accepted Hello and a decision at the door to
/// proceed.
pub proof fn law_streaming_follows_the_door(
    phase: Phase,
    a: AuthModel,
    policy: AuthPolicy,
    binding: Seq<u8>,
    input: SessionInputModel,
    now: u64,
)
    ensures
        ({
            let after = taken_in(phase, a, policy, binding, input, now).0;
            &&& after == Phase::Streaming && phase != Phase::Streaming ==> phase
                == Phase::Authenticating && input is Control && at_door(
                a,
                policy,
                input->Control_0,
                binding,
                now,
            ).2 == AuthDecision::Proceed
            &&& after == Phase::Authenticating && phase != Phase::Authenticating ==> phase
                == Phase::Greeting && input is First && greeting(input->First_0) is Ok
        }),
{
}

proof fn lemma_step_before_entry(
    phase: Phase,
    a: AuthModel,
    policy: AuthPolicy,
    binding: Seq<u8>,
    input: SessionInputModel,
    now: u64,
    i: int,
)
    requires
        phase != Phase::Streaming,
        0 <= i < taken_in(phase, a, policy, binding, input, now).2.len(),
    ensures
        before_entry(taken_in(phase, a, policy, binding, input, now).2[i]),
{
}

/// Nothing passes before the controller is in: until a run of inputs has brought
/// the session to streaming, all that it did was to greet, to answer at the door
/// and to end. No resolution, frame, clipboard or display list was sent, and no
/// input, clipboard or display choice of the peer delivered.
pub proof fn law_no_media_before_authentication(
    a: AuthModel,
    policy: AuthPolicy,
    binding: Seq<u8>,
    inputs: Seq<(SessionInputModel, u64)>,
    i: int,
)
    requires
        forall|k: int|
            0 <= k < inputs.len() ==> (#[trigger] session_after(
                Phase::Greeting,
                a,
                policy,
                binding,
                inputs.take(k),
            )).0 != Phase::Streaming,
        0 <= i < session_after(Phase::Greeting, a, policy, binding, inputs).2.len(),
    ensures
        before_entry(session_after(Phase::Greeting, a, policy, binding, inputs).2[i]),
    decreases inputs.len(),
{
    if inputs.len() > 0 {
        let rest = inputs.drop_last();
        let before = session_after(Phase::Greeting, a, policy, binding, rest);
        assert(inputs.take(inputs.len() - 1) =~= rest);
        if i < before.2.len() {
            assert forall|k: int| 0 <= k < rest.len() implies (#[trigger] session_after(
                Phase::Greeting,
                a,
                policy,
                binding,
                rest.take(k),
            )).0 != Phase::Streaming by {
                assert(rest.take(k) =~= inputs.take(k));
            }
            law_no_media_before_authentication(a, policy, binding, rest, i);
        } else {
            lemma_step_before_entry(
                before.0,
                before.1,
                policy,
                binding,
                inputs.last().0,
                inputs.last().1,
                i - before.2.len(),
            );
        }
    }
}

/// At a closed door a controller that greets and then knocks without a valid
/// token hears the host's Hello and the refusal, and nothing else; it may go on.
pub proof fn law_closed_door_is_told(
    a: AuthModel,
    policy: AuthPolicy,
    binding: Seq<u8>,
    hello: Seq<u8>,
    device_id: Seq<char>,
    token: Seq<char>,
    t1: u64,
    t2: u64,
)
    requires
        greeting(hello) is Ok,
        auth_required(policy, a),
        !token_ok(a, device_id, token),
    ensures
        session_after(
            Phase::Greeting,
            a,
            policy,
            binding,
            seq![
                (SessionInputModel::First(hello), t1),
                (SessionInputModel::Control(ControlModel::Auth { device_id, token }), t2),
            ],
        ) == (
            Phase::Authenticating,
            a,
            seq![
                ActionModel::Send(host_hello_model()),
                ActionModel::SendControl(ControlModel::AuthResult { ok: false }),
            ],
        ),
{
    let first = (SessionInputModel::First(hello), t1);
    let second = (SessionInputModel::Control(ControlModel::Auth { device_id, token }), t2);
    let all = seq![first, second];
    reveal_with_fuel(session_after, 3);
    assert(all.drop_last() =~= seq![first]);
    assert(seq![first].drop_last() =~= Seq::empty());
    assert(session_after(Phase::Greeting, a, policy, binding, all).2 =~= seq![
        ActionModel::Send(host_hello_model()),
        ActionModel::SendControl(ControlModel::AuthResult { ok: false }),
    ]);
}

/// With the door closed nobody gets in without a token of a paired device or the
/// proof for the armed code.
pub proof fn law_door_admits_only_proven(
    a: AuthModel,
    policy: AuthPolicy,
    msg: ControlModel,
    binding: Seq<u8>,
    now: u64,
)
    requires
        auth_required(policy, a),
        at_door(a, policy, msg, binding, now).2 == AuthDecision::Proceed,
    ensures
        match msg {
            ControlModel::Auth { device_id, token } => token_ok(a, device_id, token),
            ControlModel::PairRequest { given, .. } => a.active is Some && a.locked_until <= now
                < a.active->0.expires_at && given == crate::auth::proof_for(
                a.active->0.code,
                binding,
            ),
            _ => false,
        },
{
}

/// Once a device is paired the door is closed, unless it is kept open.
pub proof fn law_pairing_closes_the_open_door(
    a: AuthModel,
    policy: AuthPolicy,
    device_id: Seq<char>,
    name: Seq<char>,
    given: Seq<u8>,
    binding: Seq<u8>,
    now: u64,
)
    requires
        !policy.allow_unpaired,
        attempt(a, device_id, name, given, binding, now).1 is Paired,
    ensures
        auth_required(policy, attempt(a, device_id, name, given, binding, now).0),
{
    let after = attempt(a, device_id, name, given, binding, now).0;
    assert(after.devices.dom().contains(device_id));
    assert(!Map::<Seq<char>, crate::auth::DeviceModel>::empty().dom().contains(device_id));
}

/// The whole of a pairing: at a closed door an unknown token is refused and the
/// controller may go on; the proof for an armed code lets it in with a token;
/// that token lets it in later without a code; and once the device is revoked
/// the token does so no more, as long as the door stays closed.
pub proof fn law_pairing_lifecycle(
    a: AuthModel,
    policy: AuthPolicy,
    code: Seq<char>,
    device_id: Seq<char>,
    name: Seq<char>,
    binding: Seq<u8>,
    now: u64,
    binding2: Seq<u8>,
    later: u64,
)
    requires
        policy.require_pairing && !policy.allow_unpaired,
        crate::auth::valid_device_id(device_id),
        a.locked_until <= now,
        now + crate::auth::CODE_TTL_SECS <= u64::MAX,
    ensures
        ({
            let armed = crate::auth::armed(a, code, now);
            let request = ControlModel::PairRequest {
                device_id,
                name,
                given: crate::auth::proof_for(code, binding),
            };
            let token = crate::auth::token_for(a.host_key, device_id, now);
            let (paired, answer, decision) = at_door(armed, policy, request, binding, now);
            let knock = ControlModel::Auth { device_id, token };
            let gone = crate::auth::revoked(paired, device_id);
            &&& answer == Some(ControlModel::PairResult { ok: true, token })
            &&& decision == AuthDecision::Proceed
            &&& at_door(paired, policy, knock, binding2, later) == (
                paired,
                Some(ControlModel::AuthResult { ok: true }),
                AuthDecision::Proceed,
            )
            &&& at_door(gone, policy, knock, binding2, later) == (
                gone,
                Some(ControlModel::AuthResult { ok: false }),
                AuthDecision::Continue,
            )
        }),
{
}

/// A wrong proof ends the session and burns the code.
pub proof fn law_wrong_code_is_single_use(
    a: AuthModel,
    policy: AuthPolicy,
    device_id: Seq<char>,
    name: Seq<char>,
    given: Seq<u8>,
    binding: Seq<u8>,
    now: u64,
)
    requires
        a.active is Some,
        given != crate::auth::proof_for(a.active->0.code, binding),
    ensures
        ({
            let (after, answer, decision) = at_door(
                a,
                policy,
                ControlModel::PairRequest { device_id, name, given },
                binding,
                now,
            );
            &&& after.active is None
            &&& answer == Some(ControlModel::PairResult { ok: false, token: Seq::empty() })
            &&& decision == AuthDecision::Reject
        }),
{
}

} // verus!
