//! Clipboard, capture, encoder and WebRTC decisions.

use bytes::Bytes;
use ed25519_dalek::{Signature, SigningKey, Verifier};
use tether::auth::channel_binding;
use tether::capture::{
    list_displays, pick_display, plan_switch, single_display, DisplayInfo, DisplaySize,
    EncodedFrame, FrameEncoder, RawFrame, ScreenCapturer, SwitchStep,
};
use tether::chunks::FrameReassembler;
use tether::clipboard::{Clipboard, ClipboardState};
use tether::h264::{annex_b, bitrate_bps, is_keyframe, unit_for_sample, EncoderState};
use tether::pipeline::{CaptureEvent, CaptureLoop, CapturePhase, NextCall};
use tether::protocol::{Codec, Decoded, Message, Resolution, MAX_CLIPBOARD_LEN};
use tether::rtc::{
    channel_for, dtls_channel_binding, host_registration, media_step, sdp_fingerprint,
    to_rtc_ice, Backoff, BulkSender, Channel, MediaStep, RtcConfig,
    SignalAction, SignalClient, MAX_BUFFERED,
};
use tether::session::{bulk_clipboard, Phase};
use tether::signal::identity::{register_payload, verify_signature};
use tether::signal::protocol::{ClientMessage, ErrorCode, IceServer, ServerMessage};

#[derive(Default)]
struct FakeBoard {
    count: i64,
    content: Option<String>,
}

impl FakeBoard {
    fn external_copy(&mut self, text: &str) {
        self.count += 1;
        self.content = Some(text.into());
    }
}

impl Clipboard for FakeBoard {
    fn change_count(&mut self) -> i64 {
        self.count
    }
    fn read_text(&mut self) -> Option<String> {
        self.content.clone()
    }
    fn write_text(&mut self, text: &str) -> i64 {
        self.count += 1;
        self.content = Some(text.into());
        self.count
    }
}

#[test]
fn external_change_is_published_once() {
    let mut board = FakeBoard::default();
    let mut sync = ClipboardState::new(board.change_count());
    board.external_copy("hello from host");
    assert_eq!(sync.poll(&mut board).as_deref(), Some("hello from host"));
    // no churn: nothing further arrives while the clipboard is idle
    assert_eq!(sync.poll(&mut board), None);
    assert_eq!(sync.poll(&mut board), None);
    board.external_copy("hello from host");
    assert_eq!(sync.poll(&mut board), None);
}

#[test]
fn inbound_write_does_not_echo() {
    let mut board = FakeBoard::default();
    let mut sync = ClipboardState::new(board.change_count());
    assert!(sync.apply(&mut board, "from controller".into()));
    assert_eq!(sync.poll(&mut board), None, "own write must not be published back");
    assert_eq!(sync.poll(&mut board), None);
    assert_eq!(board.content.as_deref(), Some("from controller"));
    assert!(!sync.apply(&mut board, "from controller".into()));
    board.external_copy("from controller");
    assert_eq!(sync.poll(&mut board), None);
}

#[test]
fn oversized_clipboard_is_not_synced() {
    let mut board = FakeBoard::default();
    let mut sync = ClipboardState::new(board.change_count());
    board.external_copy(&"x".repeat(MAX_CLIPBOARD_LEN + 1));
    assert_eq!(sync.poll(&mut board), None, "oversized content must be refused");
    // and the path still works for normal content afterwards
    board.external_copy("small again");
    assert_eq!(sync.poll(&mut board).as_deref(), Some("small again"));
    board.external_copy(&"x".repeat(MAX_CLIPBOARD_LEN));
    assert!(sync.poll(&mut board).is_some());
    board.count += 1;
    board.content = None;
    assert_eq!(sync.poll(&mut board), None);
}

struct FakeCapturer {
    frames_left: u32,
}

impl ScreenCapturer for FakeCapturer {
    fn resolution(&self) -> Resolution {
        Resolution { width: 64, height: 48 }
    }
    fn next_frame(&mut self) -> Result<RawFrame, String> {
        if self.frames_left == 0 {
            return Err("fake capture exhausted".into());
        }
        self.frames_left -= 1;
        Ok(RawFrame {
            width: 64,
            height: 48,
            bytes_per_row: 64 * 4,
            bgra: vec![0u8; 64 * 4 * 48],
            timestamp_micros: 1000,
        })
    }
}

struct FakeEncoder;

impl FrameEncoder for FakeEncoder {
    fn codec(&self) -> Codec {
        Codec::Jpeg
    }
    fn encode(&mut self, frame: &RawFrame) -> Result<Bytes, String> {
        Ok(Bytes::from(format!("{}x{}", frame.width, frame.height)))
    }
}

#[test]
fn pipeline_publishes_resolution_and_frames() {
    let mut capturer = FakeCapturer { frames_left: 3 };
    let mut encoder = FakeEncoder;
    let mut phase = CapturePhase::Starting;
    let step = phase.advance(CaptureEvent::Ready(capturer.resolution()));
    assert_eq!(step.report, Some(Ok(())));
    assert_eq!(step.announce, Some(Resolution { width: 64, height: 48 }));
    assert_eq!(step.next, NextCall::CaptureFrame);
    let mut published = vec![];
    loop {
        let raw = match capturer.next_frame() {
            Ok(raw) => raw,
            Err(_) => break,
        };
        let size = Resolution { width: raw.width, height: raw.height };
        let step = phase.advance(CaptureEvent::Captured { size, requested_kbps: 0 });
        assert_eq!((step.announce, step.set_bitrate), (None, None));
        assert_eq!(step.next, NextCall::EncodeFrame);
        let payload = encoder.encode(&raw).unwrap();
        let step = phase.advance(CaptureEvent::Encoded {
            codec: encoder.codec(),
            timestamp_micros: raw.timestamp_micros,
            payload,
        });
        assert_eq!(step.next, NextCall::CaptureFrame);
        published.push(step.publish.expect("a frame"));
    }
    assert_eq!(published.iter().map(|f| f.seq).collect::<Vec<_>>(), vec![1, 2, 3]);
    assert_eq!(published[0].codec, Codec::Jpeg);
    assert_eq!(published[0].timestamp_micros, 1000);
    assert_eq!(&published[0].payload[..], b"64x48");
    assert_eq!(phase.advance(CaptureEvent::CaptureFailed).next, NextCall::Stop);
    assert_eq!(phase, CapturePhase::Stopped);
}

#[test]
fn captures_follow_size_bitrate_and_failures() {
    let mut phase = CapturePhase::Running(CaptureLoop {
        resolution: Resolution { width: 1, height: 1 },
        seq: u32::MAX,
    });
    let size = Resolution { width: 2, height: 3 };
    let step = phase.advance(CaptureEvent::Captured { size, requested_kbps: 800 });
    assert_eq!(step.announce, Some(Resolution { width: 2, height: 3 }));
    assert_eq!(step.set_bitrate, Some(800));
    let step = phase.advance(CaptureEvent::EncodeFailed);
    assert!(step.publish.is_none());
    assert_eq!(step.next, NextCall::CaptureFrame);
    let step = phase.advance(CaptureEvent::Encoded {
        codec: Codec::H264,
        timestamp_micros: 9,
        payload: Bytes::new(),
    });
    assert_eq!(step.publish.unwrap().seq, 0);
    assert_eq!(phase.advance(CaptureEvent::Unheard).next, NextCall::Stop);
}

#[test]
fn capturer_init_failure_fails_startup() {
    let mut phase = CapturePhase::Starting;
    let step = phase.advance(CaptureEvent::BuildFailed {
        transient: false,
        error: "no permission".into(),
    });
    assert_eq!(step.report, Some(Err("no permission".to_string())));
    assert_eq!(step.next, NextCall::Stop);
}

#[test]
fn encoder_init_failure_fails_startup() {
    let mut phase = CapturePhase::Starting;
    let step = phase.advance(CaptureEvent::EncoderFailed { error: "no encoder".into() });
    assert_eq!(step.report, Some(Err("no encoder".to_string())));
    assert_eq!(step.next, NextCall::Stop);
    assert_eq!(phase, CapturePhase::Stopped);
}

/// Display asleep at startup: the daemon must come up anyway and start
/// streaming once a display appears.
#[test]
fn no_displays_at_startup_retries_in_background() {
    let mut phase = CapturePhase::Starting;
    let failed =
        |transient: bool| CaptureEvent::BuildFailed { transient, error: "asleep".into() };
    let step = phase.advance(failed(true));
    assert_eq!(step.report, Some(Ok(())));
    assert_eq!(step.next, NextCall::RetryLater);
    let mut told = vec![];
    for attempt in 1..=40 {
        let step = phase.advance(failed(attempt % 2 == 0));
        assert_eq!(step.report, None);
        assert_eq!(step.next, NextCall::RetryLater);
        if step.still_waiting {
            told.push(attempt);
        }
    }
    assert_eq!(told, vec![20, 40]);
    let step = phase.advance(CaptureEvent::Ready(Resolution { width: 5, height: 6 }));
    assert_eq!(step.report, None);
    assert_eq!(step.announce, Some(Resolution { width: 5, height: 6 }));
    assert_eq!(step.next, NextCall::CaptureFrame);
}

#[test]
fn displays_are_listed_by_id() {
    let sizes = vec![
        DisplaySize { id: 9, width: 3, height: 4 },
        DisplaySize { id: 2, width: 1, height: 2 },
        DisplaySize { id: 5, width: 7, height: 8 },
    ];
    let listed = list_displays(&sizes, 5);
    assert_eq!(
        listed,
        vec![
            DisplayInfo { id: 2, width: 1, height: 2, active: false, name: "Display 1".into() },
            DisplayInfo { id: 5, width: 7, height: 8, active: true, name: "Display 2".into() },
            DisplayInfo { id: 9, width: 3, height: 4, active: false, name: "Display 3".into() },
        ]
    );
    assert_eq!(pick_display(&[4, 5], 5), Some(5));
    assert_eq!(pick_display(&[4, 5], 6), Some(4));
    assert_eq!(pick_display(&[], 6), None);
    assert_eq!(plan_switch(5, &[4, 5], 5), SwitchStep::Stay);
    assert_eq!(plan_switch(5, &[4, 5], 4), SwitchStep::Switch);
    assert_eq!(plan_switch(5, &[4, 5], 6), SwitchStep::NotAvailable);
}

#[test]
fn capturers_have_one_display_by_default() {
    let mut c = FakeCapturer { frames_left: 0 };
    let only = DisplayInfo { id: 0, width: 64, height: 48, active: true, name: "Display".into() };
    assert_eq!(c.displays(), vec![only.clone()]);
    assert_eq!(single_display(0, Resolution { width: 64, height: 48 }), vec![only]);
    assert_eq!(c.switch_display(0), Ok(()));
    assert_eq!(c.switch_display(3), Err("display 3 not available".to_string()));
}

#[test]
fn length_prefixed_units_become_start_codes() {
    let avcc = [0, 0, 0, 2, 0x65, 9, 0, 0, 0, 1, 0x41, 0, 0];
    let sets = vec![vec![0x67, 1], vec![0x68]];
    assert_eq!(
        annex_b(&sets, &avcc, 4).unwrap(),
        vec![0, 0, 0, 1, 0x67, 1, 0, 0, 0, 1, 0x68, 0, 0, 0, 1, 0x65, 9, 0, 0, 0, 1, 0x41]
    );
    assert_eq!(annex_b(&vec![], &[1, 7, 2, 8, 9], 1).unwrap(), [0, 0, 0, 1, 7, 0, 0, 0, 1, 8, 9]);
    assert_eq!(annex_b(&vec![], &[0, 1, 7], 2).unwrap(), [0, 0, 0, 1, 7]);
    for (bad, n) in [(vec![0, 0, 0, 0], 4), (vec![0, 0, 0, 3, 1, 2], 4), (vec![], 0)] {
        assert_eq!(annex_b(&vec![], &bad, n), Err("corrupt AVCC framing".to_string()));
    }
    // a keyframe carries its parameter sets, a delta frame does not
    for (mark, sets_there) in [(None, true), (Some(false), true), (Some(true), false)] {
        let out = unit_for_sample(mark, &sets, &[0, 0, 0, 1, 0x41], 4).unwrap();
        let unit: &[u8] = &[0, 0, 0, 1, 0x41];
        let with_sets: &[u8] = &[0, 0, 0, 1, 0x67, 1, 0, 0, 0, 1, 0x68, 0, 0, 0, 1, 0x41];
        assert_eq!(out, if sets_there { with_sets } else { unit });
    }
    assert!(is_keyframe(None));
    assert!(is_keyframe(Some(false)));
    assert!(!is_keyframe(Some(true)));
}

#[test]
fn encoder_sessions_follow_size_and_bitrate() {
    let mut e = EncoderState::new(4000);
    assert_eq!(e.bitrate_bps, 4_000_000);
    assert!(e.ensure_session(640, 400));
    e.session_opened(640, 400);
    assert!(!e.ensure_session(640, 400));
    assert!(e.ensure_session(320, 200));
    assert_eq!(e.open, None);
    assert_eq!(e.set_bitrate(0), None);
    assert_eq!(e.set_bitrate(4000), None);
    assert_eq!(e.set_bitrate(800), Some(800_000));
    assert_eq!(e.next_pts(), 0);
    assert_eq!(e.next_pts(), 3000);
    for kbps in [0, 1, 2_147_483, 2_147_484, 0x7fff_ffff, 0x8000_0000, u32::MAX, u32::MAX - 999] {
        assert_eq!(bitrate_bps(kbps), (kbps as i32).saturating_mul(1000), "{kbps}");
    }
}

#[test]
fn backoff_doubles_to_thirty_seconds() {
    let mut b = Backoff::new();
    let waits: Vec<u64> = (0..7).map(|_| b.after_session(0)).collect();
    assert_eq!(waits, vec![1, 2, 4, 8, 16, 30, 30]);
    assert_eq!(b.after_session(10_000_000_001), 1);
    assert_eq!(b.after_session(10_000_000_000), 2);
}

fn config() -> RtcConfig {
    RtcConfig {
        signal_url: "ws://s/ws".into(),
        secret: "sec".into(),
        device_id: "mac".into(),
        device_name: "Mac".into(),
        stun: vec!["stun:a".into()],
    }
}

#[test]
fn a_host_signs_its_registration() {
    let seed = [9u8; 32];
    let ClientMessage::Register { device_id, name, caps, auth, pubkey, sig } =
        host_registration(&config(), "nonce", &seed)
    else {
        panic!("expected Register");
    };
    assert_eq!((device_id.as_str(), name.as_str(), auth.as_str()), ("mac", "Mac", "sec"));
    assert!(caps.can_host && caps.can_control);
    let (pubkey, sig) = (pubkey.unwrap(), sig.unwrap());
    assert_eq!(verify_signature(&pubkey, &sig, "nonce", "mac"), Ok(()));
    let key = SigningKey::from_bytes(&seed).verifying_key();
    assert_eq!(pubkey, hex::encode(key.to_bytes()));
    let bytes: [u8; 64] = hex::decode(&sig).unwrap().try_into().unwrap();
    assert!(key.verify(&register_payload("nonce", "mac"), &Signature::from_bytes(&bytes)).is_ok());
}

#[test]
fn the_signal_client_follows_the_server() {
    let mut c = SignalClient::new(vec!["stun:a".into()]);
    assert!(matches!(
        c.on_message(ServerMessage::Challenge { nonce: "n".into() }),
        SignalAction::Register { nonce } if nonce == "n"
    ));
    assert!(matches!(
        c.on_message(ServerMessage::Ice { from: "ipad".into(), candidate: "c".into() }),
        SignalAction::Nothing
    ));
    match c.on_message(ServerMessage::Offer { from: "ipad".into(), sdp: "o".into() }) {
        SignalAction::AnswerOffer { from, sdp, ice, close_active } => {
            assert_eq!((from.as_str(), sdp.as_str()), ("ipad", "o"));
            assert_eq!(ice.len(), 1);
            assert_eq!(ice[0].urls, vec!["stun:a".to_string()]);
            assert!(!close_active);
        }
        other => panic!("{other:?}"),
    }
    c.answered("ipad".into());
    assert!(matches!(
        c.on_message(ServerMessage::Ice { from: "ipad".into(), candidate: "c".into() }),
        SignalAction::AddCandidate { candidate } if candidate == "c"
    ));
    assert!(matches!(
        c.on_message(ServerMessage::Ice { from: "other".into(), candidate: "c".into() }),
        SignalAction::Nothing
    ));
    let turn = IceServer {
        urls: vec!["turn:t".into()],
        username: Some("u".into()),
        credential: Some("p".into()),
    };
    c.on_message(ServerMessage::Registered { ice_servers: vec![turn.clone()] });
    match c.on_message(ServerMessage::Offer { from: "b".into(), sdp: "o".into() }) {
        SignalAction::AnswerOffer { ice, close_active, .. } => {
            assert_eq!(ice[0].username, "u");
            assert_eq!(ice[0].credential, "p");
            assert!(close_active);
        }
        other => panic!("{other:?}"),
    }
    assert!(matches!(
        c.on_message(ServerMessage::Error { code: ErrorCode::BadAuth, message: "m".into() }),
        SignalAction::Report { code: ErrorCode::BadAuth, .. }
    ));
    match c.on_message(ServerMessage::Error { code: ErrorCode::Replaced, message: "m".into() }) {
        SignalAction::Fail { reason } => {
            assert_eq!(reason, "another tetherd registered this device id: m");
        }
        other => panic!("{other:?}"),
    }
    assert!(matches!(
        c.on_message(ServerMessage::Peers { peers: vec![] }),
        SignalAction::Nothing
    ));
    assert_eq!(to_rtc_ice(&vec![], &vec![])[0].username, "");
}

#[test]
fn channels_go_by_their_labels() {
    assert_eq!(channel_for("tether-ctl"), Channel::Ctl);
    assert_eq!(channel_for("tether-media"), Channel::Media);
    assert_eq!(channel_for("tether-bulk"), Channel::Bulk);
    assert_eq!(channel_for("tether"), Channel::Other);
}

#[test]
fn media_waits_drops_or_sends() {
    let frame = || {
        Some(EncodedFrame {
            codec: Codec::Jpeg,
            seq: 1,
            timestamp_micros: 0,
            payload: Bytes::from_static(b"f"),
        })
    };
    assert!(matches!(media_step(Phase::Authenticating, frame(), 0), MediaStep::Wait));
    assert!(matches!(media_step(Phase::Streaming, None, 0), MediaStep::Wait));
    assert!(matches!(media_step(Phase::Streaming, frame(), MAX_BUFFERED + 1), MediaStep::Drop));
    match media_step(Phase::Streaming, frame(), MAX_BUFFERED) {
        MediaStep::Send(chunks) => assert_eq!(chunks.len(), 1),
        other => panic!("{other:?}"),
    }
}

#[test]
fn large_clipboards_cross_the_bulk_channel() {
    let text = "u".repeat(100_000);
    let mut sender = BulkSender::new();
    let mut chunks = sender.clipboard_chunks(Phase::Streaming, text.clone());
    assert!(chunks.len() > 1);
    chunks.reverse();
    let mut r = FrameReassembler::default();
    let last = chunks.pop().unwrap();
    for c in &chunks {
        assert!(r.on_chunk(c).is_none());
    }
    let wire = r.on_chunk(&last).unwrap();
    assert_eq!(bulk_clipboard(Phase::Streaming, &wire), Some(text));
    assert_eq!(sender.seq, 1);
    let mut wrapped = BulkSender { seq: u32::MAX };
    assert!(wrapped.clipboard_chunks(Phase::Authenticating, "x".into()).is_empty());
    assert_eq!(wrapped.clipboard_chunks(Phase::Streaming, "x".into())[0][..4], [0, 0, 0, 0]);
}

#[test]
fn frames_cross_the_media_channel() {
    let payload = Bytes::from(vec![3u8; 40_000]);
    let frame =
        EncodedFrame { codec: Codec::H264, seq: 8, timestamp_micros: 5, payload: payload.clone() };
    let mut r = FrameReassembler::default();
    let mut out = None;
    let MediaStep::Send(chunks) = media_step(Phase::Streaming, Some(frame), 0) else { panic!() };
    for c in chunks {
        out = r.on_chunk(&c);
    }
    let Ok(Decoded::Message { message: Message::FrameData(f), .. }) =
        Message::decode(&out.unwrap())
    else {
        panic!("expected FrameData");
    };
    assert_eq!(f.seq, 8);
    assert_eq!(f.payload, payload);
}

#[test]
fn fingerprints_are_read_from_descriptions() {
    let sdp = "v=0\r\ns=-\r\n  a=fingerprint:sha-256 AA:BB \r\na=fingerprint:sha-256 CC\r\n";
    assert_eq!(sdp_fingerprint(sdp).as_deref(), Some("sha-256 AA:BB"));
    assert_eq!(sdp_fingerprint("a=fingerprint:x").as_deref(), Some("x"));
    assert_eq!(sdp_fingerprint("a=fingerprint:\n").as_deref(), Some(""));
    assert_eq!(sdp_fingerprint("\n\nb=fingerprint:x\n"), None);
    assert_eq!(sdp_fingerprint(""), None);
    let a = Some("a=fingerprint:sha-256 AA:BB\n".to_string());
    let b = Some("a=fingerprint:sha-256 cc:dd\n".to_string());
    assert_eq!(dtls_channel_binding(&a, &b), channel_binding("sha-256 AA:BB", "sha-256 cc:dd"));
    assert_eq!(dtls_channel_binding(&a, &b), dtls_channel_binding(&b, &a));
    assert_eq!(
        dtls_channel_binding(&a, &None),
        channel_binding("tether-no-fp", "tether-no-fp")
    );
}
