use bytes::Bytes;
use tether::capture::EncodedFrame;
use tether::config::IpAddr;
use tether::input::InjectCommand;
use tether::protocol::{
    Codec, Hello, InputEvent, Message, Role, CAP_CAN_CONTROL, PROTOCOL_VERSION,
};
use tether::session::{
    read_hello, session_step, Incoming, Phase, SessionAction, SessionEvent,
};
use tether::slots::{Admission, ControllerSlots};

const LOOPBACK: IpAddr = IpAddr::V4(0x7f00_0001);

fn controller_hello() -> Vec<u8> {
    let hello = Hello {
        version: PROTOCOL_VERSION,
        role: Role::Controller,
        capabilities: CAP_CAN_CONTROL,
    };
    Message::Hello(hello).encode().to_vec()
}

#[test]
fn clean_disconnect_then_reconnect_without_restart() {
    let mut slots = ControllerSlots::new(1);
    assert_eq!(slots.connect(&[LOOPBACK], LOOPBACK), Admission::Enter);
    assert!(read_hello(&controller_hello()).is_ok());
    assert!(matches!(session_step(Phase::Streaming, SessionEvent::PeerClosed), SessionAction::End));
    slots.leave();
    assert_eq!(slots.connect(&[LOOPBACK], LOOPBACK), Admission::Enter);
    assert!(read_hello(&controller_hello()).is_ok());
}

#[test]
fn second_concurrent_connection_is_rejected() {
    let mut slots = ControllerSlots::new(1);
    assert_eq!(slots.connect(&[LOOPBACK], LOOPBACK), Admission::Enter);
    assert_eq!(slots.connect(&[LOOPBACK], LOOPBACK), Admission::Full);
    // ...and the first session is unaffected.
    let wire = Message::InputEvent(InputEvent::MouseMove { x: 1, y: 1 }).encode();
    assert!(matches!(
        session_step(Phase::Streaming, SessionEvent::Binary(wire.to_vec())),
        SessionAction::Deliver(Incoming::Inject(InjectCommand::Event(_)))
    ));
}

#[test]
fn multiple_controllers_up_to_the_cap() {
    // two connect concurrently, a third is refused
    let mut slots = ControllerSlots::new(2);
    assert_eq!(slots.connect(&[LOOPBACK], LOOPBACK), Admission::Enter);
    assert_eq!(slots.connect(&[LOOPBACK], LOOPBACK), Admission::Enter);

    // a frame fans out to both controllers
    let frame = EncodedFrame {
        codec: Codec::Jpeg,
        seq: 1,
        timestamp_micros: 1,
        payload: Bytes::from_static(b"f"),
    };
    for f in [frame.clone(), frame] {
        assert!(matches!(
            session_step(Phase::Streaming, SessionEvent::Frame(Some(f))),
            SessionAction::Send(Message::FrameData(_))
        ));
    }
    assert_eq!(slots.connect(&[LOOPBACK], LOOPBACK), Admission::Full);

    // input reaches the injector
    let wire = Message::InputEvent(InputEvent::MouseMove { x: 5, y: 6 }).encode();
    assert!(matches!(
        session_step(Phase::Streaming, SessionEvent::Binary(wire.to_vec())),
        SessionAction::Deliver(Incoming::Inject(InjectCommand::Event(_)))
    ));

    // freeing a slot lets a new controller in
    slots.leave();
    assert_eq!(slots.connect(&[LOOPBACK], LOOPBACK), Admission::Enter);
    assert!(!slots.enter());
}

#[test]
fn peers_off_the_allowlist_take_no_slot() {
    let mut slots = ControllerSlots::new(1);
    let other = IpAddr::V4(0x0a00_0001);
    assert_eq!(slots.connect(&[LOOPBACK], other), Admission::NotAllowed);
    assert_eq!(slots.connect(&[LOOPBACK], LOOPBACK), Admission::Enter);
    assert_eq!(slots.connect(&[LOOPBACK], other), Admission::NotAllowed);
    assert_eq!(ControllerSlots::new(0).connect(&[LOOPBACK], LOOPBACK), Admission::Full);
}
