//! What each input does to a session, for every input there is.

use vstd::prelude::*;
use vstd::utf8::encode_utf8;

use super::{
    bulk_taken, taken_in, ws_binding, ActionModel, Auth, AuthDecision, AuthPolicy, AuthResult,
    ControlMessage, ControlModel, Incoming, IncomingModel, PairRequest, Phase, SelectDisplay,
    SessionAction, SessionEvent, SessionInput, HANDSHAKE_TIMEOUT_SECS,
};
use crate::auth::{attempt, token_ok, AuthModel, DeviceModel, OutcomeModel};
use crate::capture::{DisplayInfo, EncodedFrame};
use crate::crypto::sha256;
use crate::input::{CommandModel, InjectCommand};
use crate::protocol::laws::law_round_trip;
use crate::protocol::layout::law_hello_bytes;
use crate::protocol::{
    parse, wire, ClipboardData, DecodedModel, FrameData, Hello, InputEvent, Message,
    MessageModel, Resolution, Role, TextInput,
};
use crate::text::decimal;

verus! {

/// A controller that is in drives the host: every input event it sends, in its wire
/// form, is delivered to the injector as that event, and the session streams on. Bytes behind
/// the message are ignored.
#[verifier::rlimit(30)]
pub proof fn law_input_is_injected(
    a: AuthModel,
    policy: AuthPolicy,
    binding: Seq<u8>,
    ev: InputEvent,
    sent: Vec<u8>,
    rest: Seq<u8>,
    now: u64,
)
    requires
        sent@ == wire(Message::InputEvent(ev)@) + rest,
        ev matches InputEvent::KeyDown { code, .. } ==> encode_utf8(code@).len() <= 32,
        ev matches InputEvent::KeyUp { code, .. } ==> encode_utf8(code@).len() <= 32,
    ensures
        taken_in(
            Phase::Streaming,
            a,
            policy,
            binding,
            SessionInput::Event(SessionEvent::Binary(sent))@,
            now,
        ) == (
            Phase::Streaming,
            a,
            seq![SessionAction::Deliver(Incoming::Inject(InjectCommand::Event(ev)))@],
        ),
{
    law_round_trip(Message::InputEvent(ev)@, rest);
}

/// Text that a controller typed is delivered to the injector as that text.
pub proof fn law_typed_text_is_injected(
    a: AuthModel,
    policy: AuthPolicy,
    binding: Seq<u8>,
    text: String,
    sent: Vec<u8>,
    rest: Seq<u8>,
    now: u64,
)
    requires
        sent@ == wire(Message::TextInput(TextInput { text })@) + rest,
        encode_utf8(text@).len() <= 1024,
    ensures
        taken_in(
            Phase::Streaming,
            a,
            policy,
            binding,
            SessionInput::Event(SessionEvent::Binary(sent))@,
            now,
        ) == (
            Phase::Streaming,
            a,
            seq![SessionAction::Deliver(Incoming::Inject(InjectCommand::Text(text)))@],
        ),
{
    law_round_trip(Message::TextInput(TextInput { text })@, rest);
}

/// A clipboard that a controller sends is delivered to the host's clipboard, on the
/// control channel and, reassembled, on the bulk channel.
pub proof fn law_clipboard_is_delivered(
    a: AuthModel,
    policy: AuthPolicy,
    binding: Seq<u8>,
    text: String,
    sent: Vec<u8>,
    rest: Seq<u8>,
    now: u64,
)
    requires
        sent@ == wire(Message::ClipboardData(ClipboardData { text })@) + rest,
        encode_utf8(text@).len() <= 262144,
    ensures
        taken_in(
            Phase::Streaming,
            a,
            policy,
            binding,
            SessionInput::Event(SessionEvent::Binary(sent))@,
            now,
        ) == (
            Phase::Streaming,
            a,
            seq![SessionAction::Deliver(Incoming::Clipboard(text))@],
        ),
        bulk_taken(Phase::Streaming, sent@) == Some(text@),
{
    law_round_trip(Message::ClipboardData(ClipboardData { text })@, rest);
}

/// What a controller should not send does nothing but get reported: a host's own
/// message and an incomplete one as unexpected, an unknown type by its number, other
/// bytes with what is wrong with them. The session streams on.
pub proof fn law_other_bytes_are_reported(
    a: AuthModel,
    policy: AuthPolicy,
    binding: Seq<u8>,
    sent: Vec<u8>,
    now: u64,
)
    ensures
        ({
            let step = taken_in(
                Phase::Streaming,
                a,
                policy,
                binding,
                SessionInput::Event(SessionEvent::Binary(sent))@,
                now,
            );
            &&& step.0 == Phase::Streaming
            &&& step.1 == a
            &&& match parse(sent@) {
                Ok(DecodedModel::Message { message: MessageModel::Hello(_), .. }) => step.2
                    == seq![SessionAction::Deliver(Incoming::Unexpected)@],
                Ok(DecodedModel::Message { message: MessageModel::Resolution(_), .. }) => step.2
                    == seq![SessionAction::Deliver(Incoming::Unexpected)@],
                Ok(DecodedModel::Message { message: MessageModel::FrameData { .. }, .. }) => step.2
                    == seq![SessionAction::Deliver(Incoming::Unexpected)@],
                Ok(DecodedModel::NeedMoreData) => step.2 == seq![
                    SessionAction::Deliver(Incoming::Unexpected)@,
                ],
                Ok(DecodedModel::Unknown { msg_type, .. }) => step.2 == seq![
                    SessionAction::Deliver(Incoming::UnknownType(msg_type))@,
                ],
                Err(e) => step.2 == seq![SessionAction::Deliver(Incoming::Undecodable(e))@],
                _ => true,
            }
        }),
{
}

/// Bulk messages other than clipboards deliver nothing, and neither does any bulk
/// message of a controller that is not in.
pub proof fn law_bulk_carries_clipboards_only(phase: Phase, sent: Seq<u8>)
    ensures
        phase != Phase::Streaming ==> bulk_taken(phase, sent) is None,
        bulk_taken(phase, sent) matches Some(text) ==> parse(sent) matches Ok(
            DecodedModel::Message { message: MessageModel::ClipboardData(t), .. },
        ) && t == text,
{
}

/// Every frame that is published goes out to a controller that is in, whole and as it
/// is; while there is none, nothing does.
pub proof fn law_frames_are_sent(
    a: AuthModel,
    policy: AuthPolicy,
    binding: Seq<u8>,
    f: EncodedFrame,
    now: u64,
)
    ensures
        taken_in(
            Phase::Streaming,
            a,
            policy,
            binding,
            SessionInput::Event(SessionEvent::Frame(Some(f)))@,
            now,
        ) == (
            Phase::Streaming,
            a,
            seq![
                SessionAction::Send(
                    Message::FrameData(
                        FrameData {
                            codec: f.codec,
                            seq: f.seq,
                            timestamp_micros: f.timestamp_micros,
                            payload: f.payload,
                        },
                    ),
                )@,
            ],
        ),
        taken_in(
            Phase::Streaming,
            a,
            policy,
            binding,
            SessionInput::Event(SessionEvent::Frame(None))@,
            now,
        ) == (Phase::Streaming, a, seq![SessionAction::Nothing@]),
{
}

/// A controller that is in hears of the host's new resolution, of its new clipboard
/// where there is something on it, and of its displays, each as it is; the display
/// that it picks is the one switched to.
pub proof fn law_changes_are_sent(
    a: AuthModel,
    policy: AuthPolicy,
    binding: Seq<u8>,
    resolution: Resolution,
    text: String,
    displays: Vec<DisplayInfo>,
    id: u32,
    now: u64,
)
    ensures
        taken_in(
            Phase::Streaming,
            a,
            policy,
            binding,
            SessionInput::Event(SessionEvent::Resolution(resolution))@,
            now,
        ) == (
            Phase::Streaming,
            a,
            seq![SessionAction::Send(Message::Resolution(resolution))@],
        ),
        taken_in(
            Phase::Streaming,
            a,
            policy,
            binding,
            SessionInput::Event(SessionEvent::Clipboard(Some(text)))@,
            now,
        ) == (
            Phase::Streaming,
            a,
            seq![SessionAction::Send(Message::ClipboardData(ClipboardData { text }))@],
        ),
        taken_in(
            Phase::Streaming,
            a,
            policy,
            binding,
            SessionInput::Event(SessionEvent::Clipboard(None))@,
            now,
        ) == (Phase::Streaming, a, seq![SessionAction::Nothing@]),
        taken_in(
            Phase::Streaming,
            a,
            policy,
            binding,
            SessionInput::Event(SessionEvent::Displays(displays))@,
            now,
        ) == (
            Phase::Streaming,
            a,
            seq![SessionAction::SendControl(ControlMessage::Displays(displays))@],
        ),
        taken_in(
            Phase::Streaming,
            a,
            policy,
            binding,
            SessionInput::Event(SessionEvent::Select(SelectDisplay { id }))@,
            now,
        ) == (Phase::Streaming, a, seq![SessionAction::SwitchDisplay(id)@]),
        taken_in(
            Phase::Streaming,
            a,
            policy,
            binding,
            SessionInput::Control(ControlMessage::SelectDisplay(SelectDisplay { id }))@,
            now,
        ) == (Phase::Streaming, a, seq![SessionAction::SwitchDisplay(id)@]),
        taken_in(
            Phase::Streaming,
            a,
            policy,
            binding,
            SessionInput::Event(SessionEvent::OtherFrame)@,
            now,
        ) == (Phase::Streaming, a, seq![SessionAction::Nothing@]),
{
}

/// A session of whatever phase ends when the peer goes away or the connection fails,
/// and fails, saying which, when one of its sources closes. The host's pairing state
/// does not change.
pub proof fn law_sessions_end(
    phase: Phase,
    a: AuthModel,
    policy: AuthPolicy,
    binding: Seq<u8>,
    now: u64,
)
    ensures
        taken_in(
            phase,
            a,
            policy,
            binding,
            SessionInput::Event(SessionEvent::PeerClosed)@,
            now,
        ) == (Phase::Ended, a, seq![SessionAction::End@]),
        taken_in(
            phase,
            a,
            policy,
            binding,
            SessionInput::Event(SessionEvent::PeerFailed)@,
            now,
        ) == (Phase::Ended, a, seq![SessionAction::End@]),
        taken_in(
            phase,
            a,
            policy,
            binding,
            SessionInput::Event(SessionEvent::FramesClosed)@,
            now,
        ) == (Phase::Ended, a, seq![ActionModel::Fail("frame source closed"@)]),
        taken_in(
            phase,
            a,
            policy,
            binding,
            SessionInput::Event(SessionEvent::ResolutionClosed)@,
            now,
        ) == (Phase::Ended, a, seq![ActionModel::Fail("resolution source closed"@)]),
        taken_in(
            phase,
            a,
            policy,
            binding,
            SessionInput::Event(SessionEvent::ClipboardClosed)@,
            now,
        ) == (Phase::Ended, a, seq![ActionModel::Fail("clipboard source closed"@)]),
{
}

/// Before the controller is in, and after the session has ended, an event that does
/// not end it does nothing at all.
pub proof fn law_events_wait_for_the_door(
    phase: Phase,
    a: AuthModel,
    policy: AuthPolicy,
    binding: Seq<u8>,
    ev: SessionEvent,
    now: u64,
)
    requires
        phase != Phase::Streaming,
        !(ev is PeerClosed) && !(ev is PeerFailed) && !(ev is FramesClosed) && !(
        ev is ResolutionClosed) && !(ev is ClipboardClosed),
    ensures
        taken_in(phase, a, policy, binding, SessionInput::Event(ev)@, now) == (
            phase,
            a,
            seq![SessionAction::Nothing@],
        ),
{
}

/// The greeting. A Hello of version 1 from a controller that can control (bit 1 of
/// its capabilities) is answered with the host's Hello: version 1, host, able to host
/// and to control. The session then waits at the door.
pub proof fn law_greeting_is_answered(
    a: AuthModel,
    policy: AuthPolicy,
    binding: Seq<u8>,
    capabilities: u8,
    sent: Vec<u8>,
    rest: Seq<u8>,
    now: u64,
)
    requires
        capabilities / 2 % 2 == 1,
        sent@ == seq![5u8, 0, 0, 0, 1, 1, 0, 1, capabilities] + rest,
    ensures
        taken_in(
            Phase::Greeting,
            a,
            policy,
            binding,
            SessionInput::First(sent)@,
            now,
        ) == (
            Phase::Authenticating,
            a,
            seq![
                SessionAction::Send(
                    Message::Hello(Hello { version: 1, role: Role::Host, capabilities: 3 }),
                )@,
            ],
        ),
{
    law_hello_bytes(1, Role::Controller, capabilities, rest);
    assert((capabilities & 2 != 0) == (capabilities / 2 % 2 == 1)) by (bit_vector);
    assert(1u8 | 2u8 == 3u8) by (bit_vector);
}

/// Any other Hello ends the session with the first thing wrong with it: the version,
/// then the role, then that it cannot control.
pub proof fn law_other_greetings_are_refused(
    a: AuthModel,
    policy: AuthPolicy,
    binding: Seq<u8>,
    hello: Hello,
    sent: Vec<u8>,
    rest: Seq<u8>,
    now: u64,
)
    requires
        sent@ == wire(Message::Hello(hello)@) + rest,
        hello.version != 1 || hello.role != Role::Controller || hello.capabilities / 2 % 2 == 0,
    ensures
        ({
            let step = taken_in(
                Phase::Greeting,
                a,
                policy,
                binding,
                SessionInput::First(sent)@,
                now,
            );
            &&& step.0 == Phase::Ended
            &&& step.1 == a
            &&& step.2.len() == 1
            &&& step.2[0] == if hello.version != 1 {
                ActionModel::Fail(
                    "protocol version mismatch: controller speaks v"@ + decimal(
                        hello.version as nat,
                    ) + ", host speaks v"@ + decimal(1),
                )
            } else if hello.role == Role::Host {
                ActionModel::Fail("peer Hello has role "@ + "Host"@ + ", expected Controller"@)
            } else {
                ActionModel::Fail("peer lacks can_control capability"@)
            }
        }),
{
    let c = hello.capabilities;
    law_round_trip(Message::Hello(hello)@, rest);
    assert((c & 2 != 0) == (c / 2 % 2 == 1)) by (bit_vector);
}

/// A first message that is no Hello ends the session: other messages, unknown types
/// and incomplete ones because a Hello was expected, bytes that are no message with
/// what is wrong with them. A first message is read once only.
pub proof fn law_no_greeting_is_refused(
    phase: Phase,
    a: AuthModel,
    policy: AuthPolicy,
    binding: Seq<u8>,
    sent: Vec<u8>,
    now: u64,
)
    ensures
        ({
            let step = taken_in(phase, a, policy, binding, SessionInput::First(sent)@, now);
            &&& phase != Phase::Greeting ==> step == (phase, a, Seq::<ActionModel>::empty())
            &&& phase == Phase::Greeting ==> match parse(sent@) {
                Ok(DecodedModel::Message { message: MessageModel::Hello(_), .. }) => true,
                Ok(_) => step == (Phase::Ended, a, seq![ActionModel::Fail("expected Hello"@)]),
                Err(e) => step == (Phase::Ended, a, seq![ActionModel::Fail(e.text())]),
            }
        }),
{
}

/// A knock with a token. It is let in exactly where the door is kept open, or no
/// device is paired and none has to be, or the token is that of the paired device;
/// otherwise it is told so and may try again. Nothing of the pairing state changes.
pub proof fn law_knock_is_answered(
    a: AuthModel,
    policy: AuthPolicy,
    binding: Seq<u8>,
    knock: Auth,
    now: u64,
)
    ensures
        ({
            let step = taken_in(
                Phase::Authenticating,
                a,
                policy,
                binding,
                SessionInput::Control(ControlMessage::Auth(knock))@,
                now,
            );
            let open = policy.allow_unpaired || (!policy.require_pairing && a.devices == Map::<
                Seq<char>,
                DeviceModel,
            >::empty());
            let ok = open || token_ok(a, knock.device_id@, knock.token@);
            &&& step.0 == if ok {
                Phase::Streaming
            } else {
                Phase::Authenticating
            }
            &&& step.1 == a
            &&& step.2 == seq![
                SessionAction::SendControl(ControlMessage::AuthResult(AuthResult { ok }))@,
            ]
        }),
{
}

/// A pairing request at the door is settled by the attempt: success is answered with
/// the token and lets the controller in, anything else is answered without one and
/// ends the session.
pub proof fn law_pair_request_is_answered(
    a: AuthModel,
    policy: AuthPolicy,
    binding: Seq<u8>,
    request: PairRequest,
    now: u64,
)
    ensures
        ({
            let step = taken_in(
                Phase::Authenticating,
                a,
                policy,
                binding,
                SessionInput::Control(ControlMessage::PairRequest(request))@,
                now,
            );
            let (after, outcome) = attempt(
                a,
                request.device_id@,
                request.name@,
                request.proof_bytes@,
                binding,
                now,
            );
            &&& step.1 == after
            &&& match outcome {
                OutcomeModel::Paired { token } => {
                    &&& step.0 == Phase::Streaming
                    &&& step.2 == seq![
                        ActionModel::SendControl(ControlModel::PairResult { ok: true, token }),
                    ]
                },
                _ => {
                    &&& step.0 == Phase::Ended
                    &&& step.2 == seq![
                        ActionModel::SendControl(
                            ControlModel::PairResult { ok: false, token: Seq::empty() },
                        ),
                        ActionModel::End,
                    ]
                },
            }
        }),
{
}

/// Control messages that are out of place do nothing: at the door all but a knock and
/// a pairing request; elsewhere all but the choice of a display, which before the
/// controller is in and after the end does nothing either.
pub proof fn law_other_control_messages_are_ignored(
    phase: Phase,
    a: AuthModel,
    policy: AuthPolicy,
    binding: Seq<u8>,
    m: ControlMessage,
    now: u64,
)
    ensures
        ({
            let step = taken_in(phase, a, policy, binding, SessionInput::Control(m)@, now);
            &&& phase == Phase::Authenticating && !(m is Auth) && !(m is PairRequest) ==> step == (
                phase,
                a,
                Seq::<ActionModel>::empty(),
            )
            &&& phase != Phase::Authenticating && !(m is SelectDisplay) ==> step == (
                phase,
                a,
                Seq::<ActionModel>::empty(),
            )
            &&& (phase == Phase::Greeting || phase == Phase::Ended) && m is SelectDisplay ==> step
                == (phase, a, seq![SessionAction::Nothing@])
        }),
{
}

/// A controller that is in is first shown the resolution and then, where there is
/// something on it, the clipboard; one that is not is shown nothing.
pub proof fn law_opening(
    phase: Phase,
    a: AuthModel,
    policy: AuthPolicy,
    binding: Seq<u8>,
    resolution: Resolution,
    clipboard: Option<String>,
    now: u64,
)
    ensures
        ({
            let step = taken_in(
                phase,
                a,
                policy,
                binding,
                SessionInput::Opening { resolution, clipboard }@,
                now,
            );
            &&& step.0 == phase
            &&& step.1 == a
            &&& phase != Phase::Streaming ==> step.2 == Seq::<ActionModel>::empty()
            &&& phase == Phase::Streaming ==> match clipboard {
                None => step.2 == seq![SessionAction::Send(Message::Resolution(resolution))@],
                Some(text) => step.2 == seq![
                    SessionAction::Send(Message::Resolution(resolution))@,
                    SessionAction::Send(Message::ClipboardData(ClipboardData { text }))@,
                ],
            }
        }),
{
    let step = taken_in(
        phase,
        a,
        policy,
        binding,
        SessionInput::Opening { resolution, clipboard }@,
        now,
    );
    if phase == Phase::Streaming {
        match clipboard {
            None => {
                assert(step.2 =~= seq![SessionAction::Send(Message::Resolution(resolution))@]);
            },
            Some(text) => {
                assert(step.2 =~= seq![
                    SessionAction::Send(Message::Resolution(resolution))@,
                    SessionAction::Send(Message::ClipboardData(ClipboardData { text }))@,
                ]);
            },
        }
    } else {
        assert(step.2 =~= Seq::<ActionModel>::empty());
    }
}

/// The phases of a session. An accepted Hello brings it from the greeting to the door,
/// anything else at that point ends it; at the door a decision lets in, ends, or waits; at
/// any other point a decision changes nothing. Media is allowed while it streams.
pub proof fn law_phases(phase: Phase, accepted: bool, decision: AuthDecision)
    ensures
        phase.after_hello(accepted) == if phase == Phase::Greeting && accepted {
            Phase::Authenticating
        } else {
            Phase::Ended
        },
        Phase::Authenticating.after_decision(AuthDecision::Proceed) == Phase::Streaming,
        Phase::Authenticating.after_decision(AuthDecision::Reject) == Phase::Ended,
        Phase::Authenticating.after_decision(AuthDecision::Continue) == Phase::Authenticating,
        phase != Phase::Authenticating ==> phase.after_decision(decision) == phase,
        Phase::Streaming.streams(),
        !Phase::Greeting.streams() && !Phase::Authenticating.streams() && !Phase::Ended.streams(),
{
}

/// The LAN transport binds its pairing proofs to the digest of a fixed text, twice.
pub proof fn law_lan_sessions_are_bound()
    ensures
        ws_binding() == sha256(
            encode_utf8("TETHER-WS"@) + seq!['|' as u8] + encode_utf8("TETHER-WS"@),
        ),
        HANDSHAKE_TIMEOUT_SECS == 5,
{
    crate::auth::rules::law_lan_binding();
}

/// Events, actions and messages stand for their own fields.
pub proof fn law_steps_hold_their_fields(
    action: SessionAction,
    incoming: Incoming,
    command: InjectCommand,
    control: ControlMessage,
)
    ensures
        match action {
            SessionAction::Send(m) => action@ == ActionModel::Send(m@),
            SessionAction::SendControl(m) => action@ == ActionModel::SendControl(m@),
            SessionAction::Deliver(i) => action@ == ActionModel::Deliver(i@),
            SessionAction::SwitchDisplay(id) => action@ == ActionModel::SwitchDisplay(id),
            SessionAction::Nothing => action@ == ActionModel::Nothing,
            SessionAction::End => action@ == ActionModel::End,
            SessionAction::Fail(e) => action@ == ActionModel::Fail(e@),
        },
        match incoming {
            Incoming::Inject(c) => incoming@ == IncomingModel::Inject(c@),
            Incoming::Clipboard(text) => incoming@ == IncomingModel::Clipboard(text@),
            Incoming::UnknownType(t) => incoming@ == IncomingModel::UnknownType(t),
            Incoming::Unexpected => incoming@ == IncomingModel::Unexpected,
            Incoming::Undecodable(e) => incoming@ == IncomingModel::Undecodable(e),
        },
        match command {
            InjectCommand::Event(ev) => command@ == CommandModel::Event(ev@),
            InjectCommand::Text(text) => command@ == CommandModel::Text(text@),
            InjectCommand::ReleaseAll => command@ == CommandModel::ReleaseAll,
        },
        match control {
            ControlMessage::Auth(a) => control@ == (ControlModel::Auth {
                device_id: a.device_id@,
                token: a.token@,
            }),
            ControlMessage::AuthResult(a) => control@ == (ControlModel::AuthResult { ok: a.ok }),
            ControlMessage::PairRequest(p) => control@ == (ControlModel::PairRequest {
                device_id: p.device_id@,
                name: p.name@,
                given: p.proof_bytes@,
            }),
            ControlMessage::PairResult(p) => control@ == (ControlModel::PairResult {
                ok: p.ok,
                token: p.token@,
            }),
            ControlMessage::Displays(v) => control@ matches ControlModel::Displays(list)
                && list.len() == v@.len() && forall|i: int|
                0 <= i < list.len() ==> #[trigger] list[i] == v@[i]@,
            ControlMessage::SelectDisplay(s) => control@ == (ControlModel::SelectDisplay {
                id: s.id,
            }),
        },
{
}

} // verus!
