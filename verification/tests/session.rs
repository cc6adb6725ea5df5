use bytes::Bytes;
use tether::auth::{pairing_proof, PairOutcome, PairingAuth};
use tether::capture::{DisplayInfo, EncodedFrame};
use tether::input::InjectCommand;
use tether::protocol::{
    ClipboardData, Codec, DecodeError, Decoded, Hello, InputEvent, Message, MouseButton,
    Resolution, Role, TextInput, CAP_CAN_CONTROL, CAP_CAN_HOST, PROTOCOL_VERSION,
};
use tether::session::{
    advance, answer_pairing, bulk_clipboard, handle_auth_message, handle_incoming, host_hello,
    opening_messages, read_hello, session_step, validate_controller_hello, ws_channel_binding,
    Auth, AuthDecision, AuthPolicy, AuthResult, ControlMessage, HelloProblem, Incoming,
    PairRequest, PairResult, Phase, SelectDisplay, SessionAction, SessionEvent, SessionInput,
};
use tether::strmap::StrMap;

fn hello(version: u16, role: Role, capabilities: u8) -> Vec<u8> {
    Message::Hello(Hello { version, role, capabilities }).encode().to_vec()
}

const OPEN: AuthPolicy = AuthPolicy { require_pairing: false, allow_unpaired: true };
const STRICT: AuthPolicy = AuthPolicy { require_pairing: true, allow_unpaired: false };

fn auth() -> PairingAuth {
    PairingAuth::new([4; 32], StrMap::new())
}

fn knock(device_id: &str, token: &str) -> ControlMessage {
    ControlMessage::Auth(Auth { device_id: device_id.into(), token: token.into() })
}

#[test]
fn handshake_then_frames_then_input() {
    let first = hello(PROTOCOL_VERSION, Role::Controller, CAP_CAN_CONTROL);
    let h = read_hello(&first).unwrap();
    assert_eq!(h.role, Role::Controller);
    let Message::Hello(ours) = host_hello() else { panic!() };
    assert_eq!(ours.version, PROTOCOL_VERSION);
    assert_eq!(ours.role, Role::Host);
    assert_ne!(ours.capabilities & CAP_CAN_HOST, 0);

    // door off: an empty token is answered ok
    let mut a = auth();
    let (answer, decision) =
        handle_auth_message(&mut a, OPEN, &knock("test", ""), &ws_channel_binding(), 1);
    assert_eq!(answer, Some(ControlMessage::AuthResult(AuthResult { ok: true })));
    assert_eq!(decision, AuthDecision::Proceed);
    assert_eq!(
        opening_messages(Phase::Streaming, Resolution { width: 1920, height: 1080 }, None),
        vec![Message::Resolution(Resolution { width: 1920, height: 1080 })]
    );

    // host publishes a frame: the controller receives FrameData
    let frame = EncodedFrame {
        codec: Codec::Jpeg,
        seq: 1,
        timestamp_micros: 123,
        payload: Bytes::from_static(b"fakejpeg"),
    };
    let SessionAction::Send(Message::FrameData(f)) =
        session_step(Phase::Streaming, SessionEvent::Frame(Some(frame)))
    else {
        panic!("expected FrameData");
    };
    assert_eq!(f.seq, 1);
    assert_eq!(&f.payload[..], b"fakejpeg");

    // controller sends input: it goes to the injector
    let ev = InputEvent::MouseDown { button: MouseButton::Left, x: 100, y: 200 };
    let wire = Message::InputEvent(ev.clone()).encode().to_vec();
    let SessionAction::Deliver(Incoming::Inject(InjectCommand::Event(e))) =
        session_step(Phase::Streaming, SessionEvent::Binary(wire))
    else {
        panic!("expected an input event");
    };
    assert_eq!(e, ev);
}

/// Full pairing lifecycle: the door refuses an unpaired controller; a one-time
/// code pairs it; the issued token authenticates a reconnect; revocation locks
/// it back out.
#[test]
fn pairing_lifecycle() {
    let mut a = auth();
    let binding = ws_channel_binding();

    let (answer, decision) = handle_auth_message(&mut a, STRICT, &knock("ipad", ""), &binding, 1000);
    assert_eq!(answer, Some(ControlMessage::AuthResult(AuthResult { ok: false })));
    assert_eq!(decision, AuthDecision::Continue);

    let code = a.arm(1000).unwrap();
    let request = ControlMessage::PairRequest(PairRequest {
        device_id: "ipad".into(),
        name: "iPad".into(),
        proof_bytes: pairing_proof(&code, &binding),
    });
    let (answer, decision) = handle_auth_message(&mut a, STRICT, &request, &binding, 1001);
    let token = match answer {
        Some(ControlMessage::PairResult(PairResult { ok: true, token })) => token,
        other => panic!("expected PairResult ok, got {other:?}"),
    };
    assert_eq!(decision, AuthDecision::Proceed);

    let (answer, decision) =
        handle_auth_message(&mut a, STRICT, &knock("ipad", &token), &binding, 2000);
    assert_eq!(answer, Some(ControlMessage::AuthResult(AuthResult { ok: true })));
    assert_eq!(decision, AuthDecision::Proceed);

    assert!(a.revoke("ipad"));
    let (answer, _) = handle_auth_message(&mut a, STRICT, &knock("ipad", &token), &binding, 3000);
    assert_eq!(answer, Some(ControlMessage::AuthResult(AuthResult { ok: false })));
}

/// A wrong pairing code is consumed on the first attempt (no brute force).
#[test]
fn wrong_pairing_code_is_single_use() {
    let mut a = auth();
    let binding = ws_channel_binding();
    a.arm(1000).unwrap();
    let request = ControlMessage::PairRequest(PairRequest {
        device_id: "x".into(),
        name: "x".into(),
        proof_bytes: vec![0u8; 32],
    });
    let (answer, decision) = handle_auth_message(&mut a, STRICT, &request, &binding, 1001);
    assert_eq!(
        answer,
        Some(ControlMessage::PairResult(PairResult { ok: false, token: String::new() }))
    );
    // host closes the session after a failed pairing
    assert_eq!(decision, AuthDecision::Reject);
    assert_eq!(Phase::Authenticating.on_decision(decision), Phase::Ended);
}

#[test]
fn the_door_closes_once_a_device_is_paired() {
    let lax = AuthPolicy { require_pairing: false, allow_unpaired: false };
    let mut a = auth();
    let binding = ws_channel_binding();
    let (_, d) = handle_auth_message(&mut a, lax, &knock("x", ""), &binding, 1);
    assert_eq!(d, AuthDecision::Proceed);
    a.arm_with(0, 1);
    a.conclude("ipad", "iPad", true, "t".into(), 2);
    let (_, d) = handle_auth_message(&mut a, lax, &knock("x", ""), &binding, 3);
    assert_eq!(d, AuthDecision::Continue);
    let (_, d) = handle_auth_message(&mut a, OPEN, &knock("x", ""), &binding, 3);
    assert_eq!(d, AuthDecision::Proceed);
    let other = ControlMessage::SelectDisplay(SelectDisplay { id: 1 });
    assert_eq!(
        handle_auth_message(&mut a, lax, &other, &binding, 3),
        (None, AuthDecision::Continue)
    );
}

#[test]
fn pairing_outcomes_and_their_answers() {
    for o in [PairOutcome::Rejected, PairOutcome::LockedOut, PairOutcome::NoActiveCode] {
        assert_eq!(
            answer_pairing(o),
            (
                ControlMessage::PairResult(PairResult { ok: false, token: String::new() }),
                AuthDecision::Reject
            )
        );
    }
    assert_eq!(
        answer_pairing(PairOutcome::Paired { token: "t".into() }),
        (
            ControlMessage::PairResult(PairResult { ok: true, token: "t".into() }),
            AuthDecision::Proceed
        )
    );
}

#[test]
fn text_input_relays_to_injector() {
    let wire = Message::TextInput(TextInput { text: "señor 🎯".into() }).encode();
    let Incoming::Inject(InjectCommand::Text(t)) = handle_incoming(&wire) else {
        panic!("expected text");
    };
    assert_eq!(t, "señor 🎯");
}

#[test]
fn clipboard_relays_both_directions() {
    // host to controller
    match session_step(Phase::Streaming, SessionEvent::Clipboard(Some("copied on host".into()))) {
        SessionAction::Send(Message::ClipboardData(c)) => assert_eq!(c.text, "copied on host"),
        other => panic!("expected ClipboardData, got {other:?}"),
    }
    // controller to host
    let wire =
        Message::ClipboardData(ClipboardData { text: "copied on controller".into() }).encode();
    match handle_incoming(&wire) {
        Incoming::Clipboard(text) => assert_eq!(text, "copied on controller"),
        other => panic!("expected clipboard content, got {other:?}"),
    }
    assert_eq!(bulk_clipboard(Phase::Streaming, &wire).as_deref(), Some("copied on controller"));
    assert_eq!(bulk_clipboard(Phase::Streaming, &hello(1, Role::Controller, 2)), None);
    assert_eq!(
        opening_messages(Phase::Streaming, Resolution { width: 1, height: 2 }, Some("c".into())),
        vec![
            Message::Resolution(Resolution { width: 1, height: 2 }),
            Message::ClipboardData(ClipboardData { text: "c".into() })
        ]
    );
}

#[test]
fn select_display_routes_to_capture() {
    let displays = vec![
        DisplayInfo { id: 1, width: 1920, height: 1080, active: true, name: "1".into() },
        DisplayInfo { id: 7, width: 2560, height: 1440, active: false, name: "2".into() },
    ];
    match session_step(Phase::Streaming, SessionEvent::Displays(displays.clone())) {
        SessionAction::SendControl(ControlMessage::Displays(d)) => assert_eq!(d, displays),
        other => panic!("expected Displays, got {other:?}"),
    }
    assert!(matches!(
        session_step(Phase::Streaming, SessionEvent::Select(SelectDisplay { id: 7 })),
        SessionAction::SwitchDisplay(7)
    ));
}

#[test]
fn version_mismatch_is_rejected() {
    let bytes = hello(PROTOCOL_VERSION + 1, Role::Controller, CAP_CAN_CONTROL);
    assert_eq!(
        read_hello(&bytes),
        Err(HelloProblem::Refused(
            "protocol version mismatch: controller speaks v2, host speaks v1".into()
        ))
    );
    assert_eq!(Phase::Greeting.on_hello(false), Phase::Ended);
}

#[test]
fn host_role_peer_is_rejected() {
    let bytes = hello(PROTOCOL_VERSION, Role::Host, CAP_CAN_HOST);
    assert_eq!(
        read_hello(&bytes),
        Err(HelloProblem::Refused("peer Hello has role Host, expected Controller".into()))
    );
}

#[test]
fn other_first_messages_are_no_hello() {
    assert_eq!(
        validate_controller_hello(&Hello { version: 1, role: Role::Controller, capabilities: 1 }),
        Err("peer lacks can_control capability".to_string())
    );
    let resolution = Message::Resolution(Resolution { width: 1, height: 1 }).encode();
    assert_eq!(read_hello(&resolution), Err(HelloProblem::NotHello));
    assert_eq!(read_hello(&[1]), Err(HelloProblem::NotHello));
    assert_eq!(
        read_hello(&[0, 0, 0, 0]),
        Err(HelloProblem::Undecodable(DecodeError::InvalidValue("zero-length message")))
    );
}

#[test]
fn unexpected_and_undecodable_messages_are_dropped() {
    assert!(matches!(handle_incoming(&hello(1, Role::Controller, 2)), Incoming::Unexpected));
    assert!(matches!(handle_incoming(&[]), Incoming::Unexpected));
    assert!(matches!(handle_incoming(&[1, 0, 0, 0, 0x7F]), Incoming::UnknownType(0x7F)));
    assert!(matches!(
        handle_incoming(&[1, 0, 0, 0, 1]),
        Incoming::Undecodable(DecodeError::BadLength(1))
    ));
}

#[test]
fn sessions_end_as_told() {
    assert!(matches!(session_step(Phase::Streaming, SessionEvent::PeerClosed), SessionAction::End));
    assert!(matches!(session_step(Phase::Streaming, SessionEvent::PeerFailed), SessionAction::End));
    assert!(matches!(session_step(Phase::Streaming, SessionEvent::OtherFrame), SessionAction::Nothing));
    assert!(matches!(session_step(Phase::Streaming, SessionEvent::Frame(None)), SessionAction::Nothing));
    assert!(matches!(session_step(Phase::Streaming, SessionEvent::Clipboard(None)), SessionAction::Nothing));
    for (ev, why) in [
        (SessionEvent::FramesClosed, "frame source closed"),
        (SessionEvent::ResolutionClosed, "resolution source closed"),
        (SessionEvent::ClipboardClosed, "clipboard source closed"),
    ] {
        match session_step(Phase::Streaming, ev) {
            SessionAction::Fail(e) => assert_eq!(e, why),
            other => panic!("{other:?}"),
        }
    }
    let SessionAction::Send(m) =
        session_step(Phase::Streaming, SessionEvent::Resolution(Resolution { width: 3, height: 4 }))
    else {
        panic!()
    };
    assert!(matches!(
        Message::decode(&m.encode()),
        Ok(Decoded::Message { message: Message::Resolution(Resolution { width: 3, height: 4 }), .. })
    ));
}

#[test]
fn media_flows_only_once_the_controller_is_in() {
    let p = Phase::Greeting;
    assert!(!p.media_allowed());
    let p = p.on_hello(true);
    assert!(!p.media_allowed());
    let p = p.on_decision(AuthDecision::Continue);
    assert!(!p.media_allowed());
    let p = p.on_decision(AuthDecision::Proceed);
    assert!(p.media_allowed());
    assert!(p.on_decision(AuthDecision::Reject).media_allowed());
}

#[test]
fn nothing_passes_before_the_controller_is_in() {
    let resolution = Resolution { width: 1, height: 2 };
    let input = Message::InputEvent(InputEvent::MouseMove { x: 1, y: 1 }).encode().to_vec();
    let clip = Message::ClipboardData(ClipboardData { text: "c".into() }).encode();
    for phase in [Phase::Greeting, Phase::Authenticating, Phase::Ended] {
        let frame = EncodedFrame {
            codec: Codec::Jpeg,
            seq: 1,
            timestamp_micros: 1,
            payload: Bytes::from_static(b"f"),
        };
        for ev in [
            SessionEvent::Frame(Some(frame)),
            SessionEvent::Resolution(resolution),
            SessionEvent::Clipboard(Some("x".into())),
            SessionEvent::Displays(vec![]),
            SessionEvent::Binary(input.clone()),
            SessionEvent::Select(SelectDisplay { id: 1 }),
        ] {
            assert!(matches!(session_step(phase, ev), SessionAction::Nothing));
        }
        assert!(opening_messages(phase, resolution, Some("x".into())).is_empty());
        assert_eq!(bulk_clipboard(phase, &clip), None);
    }
}

/// A whole session at a closed door: greeted, refused, paired, let in.
#[test]
fn a_session_from_greeting_to_streaming() {
    let mut a = auth();
    let mut phase = Phase::Greeting;
    let binding = ws_channel_binding();
    let resolution = Resolution { width: 1920, height: 1080 };
    let mut take = |phase: &mut Phase, a: &mut PairingAuth, input: SessionInput| {
        advance(phase, a, STRICT, &binding, input, 1001)
    };

    let first = hello(PROTOCOL_VERSION, Role::Controller, CAP_CAN_CONTROL);
    let out = take(&mut phase, &mut a, SessionInput::First(first));
    assert!(matches!(out[..], [SessionAction::Send(Message::Hello(_))]));
    assert_eq!(phase, Phase::Authenticating);

    let out = take(&mut phase, &mut a, SessionInput::Control(knock("ipad", "")));
    assert!(matches!(
        out[..],
        [SessionAction::SendControl(ControlMessage::AuthResult(AuthResult { ok: false }))]
    ));
    let opening = || SessionInput::Opening { resolution, clipboard: Some("c".into()) };
    assert!(take(&mut phase, &mut a, opening()).is_empty());
    let select = || {
        SessionInput::Control(ControlMessage::SelectDisplay(SelectDisplay { id: 7 }))
    };
    assert!(take(&mut phase, &mut a, select()).is_empty());

    let code = a.arm(1000).unwrap();
    let request = ControlMessage::PairRequest(PairRequest {
        device_id: "ipad".into(),
        name: "iPad".into(),
        proof_bytes: pairing_proof(&code, &binding),
    });
    let out = take(&mut phase, &mut a, SessionInput::Control(request));
    assert!(matches!(
        out[..],
        [SessionAction::SendControl(ControlMessage::PairResult(PairResult { ok: true, .. }))]
    ));
    assert_eq!(phase, Phase::Streaming);

    let out = take(&mut phase, &mut a, opening());
    assert!(matches!(
        out[..],
        [SessionAction::Send(Message::Resolution(_)), SessionAction::Send(Message::ClipboardData(_))]
    ));
    let out = take(&mut phase, &mut a, select());
    assert!(matches!(out[..], [SessionAction::SwitchDisplay(7)]));
    let out = take(&mut phase, &mut a, SessionInput::Event(SessionEvent::PeerClosed));
    assert!(matches!(out[..], [SessionAction::End]));
    assert_eq!(phase, Phase::Ended);
}

#[test]
fn sessions_that_fail_at_the_start() {
    let binding = ws_channel_binding();
    let mut a = auth();
    for (first, why) in [
        (vec![0u8, 0, 0, 0], None),
        (Message::TextInput(TextInput { text: "x".into() }).encode().to_vec(), Some("expected Hello")),
        (hello(PROTOCOL_VERSION, Role::Controller, 0), Some("peer lacks can_control capability")),
    ] {
        let mut phase = Phase::Greeting;
        let out = advance(&mut phase, &mut a, OPEN, &binding, SessionInput::First(first), 1);
        let [SessionAction::Fail(e)] = &out[..] else { panic!("{out:?}") };
        assert!(why.is_none() || why == Some(e.as_str()));
        assert_eq!(phase, Phase::Ended);
    }
    let mut phase = Phase::Authenticating;
    a.arm(1000).unwrap();
    let request = ControlMessage::PairRequest(PairRequest {
        device_id: "x".into(),
        name: "x".into(),
        proof_bytes: vec![0u8; 32],
    });
    let out = advance(&mut phase, &mut a, STRICT, &binding, SessionInput::Control(request), 1001);
    assert!(matches!(
        out[..],
        [
            SessionAction::SendControl(ControlMessage::PairResult(PairResult { ok: false, .. })),
            SessionAction::End
        ]
    ));
    assert_eq!(phase, Phase::Ended);
}
