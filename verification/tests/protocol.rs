use bytes::{BufMut, Bytes, BytesMut};
use tether::protocol::{
    modifiers, ClipboardData, Codec, DecodeError, Decoded, FrameData, Hello, InputEvent, Message,
    MouseButton, Resolution, Role, TextInput, CAP_CAN_CONTROL, CAP_CAN_HOST, KIND_KEY_DOWN,
    MAX_CLIPBOARD_LEN, MAX_MESSAGE_LEN, MAX_TEXT_INPUT_LEN, MSG_CLIPBOARD_DATA, MSG_HELLO,
    MSG_INPUT_EVENT, MSG_RESOLUTION, MSG_TEXT_INPUT, PROTOCOL_VERSION,
};

fn round_trip(msg: Message) {
    let wire = msg.encode();
    match Message::decode(&wire).unwrap() {
        Decoded::Message { message, consumed } => {
            assert_eq!(message, msg);
            assert_eq!(consumed, wire.len(), "must consume the whole encoding");
        }
        other => panic!("expected Message, got {other:?}"),
    }
}

fn all_messages() -> Vec<Message> {
    vec![
        Message::Hello(Hello {
            version: PROTOCOL_VERSION,
            role: Role::Controller,
            capabilities: CAP_CAN_CONTROL,
        }),
        Message::Hello(Hello {
            version: 7,
            role: Role::Host,
            capabilities: CAP_CAN_HOST | CAP_CAN_CONTROL,
        }),
        Message::Resolution(Resolution { width: 3456, height: 2234 }),
        Message::FrameData(FrameData {
            codec: Codec::Jpeg,
            seq: 42,
            timestamp_micros: 1_718_000_000_123_456,
            payload: Bytes::from_static(&[0xFF, 0xD8, 0xFF, 0xD9]),
        }),
        Message::FrameData(FrameData {
            codec: Codec::H264,
            seq: u32::MAX,
            timestamp_micros: u64::MAX,
            payload: Bytes::new(), // empty payload is legal
        }),
        Message::InputEvent(InputEvent::MouseMove { x: 0, y: 65535 }),
        Message::InputEvent(InputEvent::MouseDown {
            button: MouseButton::Right,
            x: 32768,
            y: 1,
        }),
        Message::InputEvent(InputEvent::MouseUp {
            button: MouseButton::Left,
            x: 0,
            y: 0,
        }),
        Message::InputEvent(InputEvent::Scroll { dx: -120, dy: 240 }),
        Message::InputEvent(InputEvent::KeyDown {
            code: "KeyA".into(),
            modifiers: modifiers::SHIFT | modifiers::META,
        }),
        Message::InputEvent(InputEvent::KeyUp { code: "MetaLeft".into(), modifiers: 0 }),
        Message::ClipboardData(ClipboardData { text: "héllo 📋".into() }),
        Message::ClipboardData(ClipboardData { text: String::new() }),
        Message::TextInput(TextInput { text: "a".into() }),
        Message::TextInput(TextInput { text: "señor 🎯".into() }),
        Message::TextInput(TextInput { text: String::new() }),
    ]
}

#[test]
fn round_trips_every_message_type() {
    for msg in all_messages() {
        round_trip(msg);
    }
}

#[test]
fn truncation_at_every_boundary_is_need_more_data_never_garbage() {
    for msg in all_messages() {
        let wire = msg.encode();
        for cut in 0..wire.len() {
            match Message::decode(&wire[..cut]) {
                Ok(Decoded::NeedMoreData) => {}
                other => panic!("cut at {cut}/{} gave {other:?}", wire.len()),
            }
        }
    }
}

#[test]
fn unknown_message_type_is_skippable() {
    let mut wire = BytesMut::new();
    wire.put_u32_le(3);
    wire.put_u8(0x7F); // unknown type
    wire.put_slice(&[1, 2]);
    // a real message follows in the same buffer
    let follow = Message::Resolution(Resolution { width: 1, height: 2 }).encode();
    wire.put_slice(&follow);

    let Decoded::Unknown { msg_type, consumed } = Message::decode(&wire).unwrap() else {
        panic!("expected Unknown");
    };
    assert_eq!(msg_type, 0x7F);
    assert_eq!(consumed, 7);
    let Decoded::Message { message, .. } = Message::decode(&wire[consumed..]).unwrap() else {
        panic!("expected Message after skipping unknown");
    };
    assert_eq!(message, Message::Resolution(Resolution { width: 1, height: 2 }));
}

#[test]
fn rejects_corrupt_input() {
    // declared length exceeding cap
    let mut huge = BytesMut::new();
    huge.put_u32_le(MAX_MESSAGE_LEN + 1);
    huge.put_u8(MSG_HELLO);
    assert_eq!(
        Message::decode(&huge),
        Err(DecodeError::TooLong(MAX_MESSAGE_LEN + 1))
    );

    // wrong payload size for a fixed-size message
    let mut bad = BytesMut::new();
    bad.put_u32_le(2);
    bad.put_u8(MSG_RESOLUTION);
    bad.put_u8(0);
    assert_eq!(
        Message::decode(&bad),
        Err(DecodeError::BadLength(MSG_RESOLUTION))
    );

    // invalid enum value
    let mut bad_role = BytesMut::new();
    bad_role.put_u32_le(5);
    bad_role.put_u8(MSG_HELLO);
    bad_role.put_u16_le(1);
    bad_role.put_u8(9); // bogus role
    bad_role.put_u8(0);
    assert_eq!(
        Message::decode(&bad_role),
        Err(DecodeError::InvalidValue("role"))
    );

    // key code that is not UTF-8
    let mut bad_key = BytesMut::new();
    bad_key.put_u32_le(6);
    bad_key.put_u8(MSG_INPUT_EVENT);
    bad_key.put_u8(KIND_KEY_DOWN);
    bad_key.put_u8(0); // modifiers
    bad_key.put_u8(2); // code_len
    bad_key.put_slice(&[0xFF, 0xFE]);
    assert_eq!(Message::decode(&bad_key), Err(DecodeError::BadKeyCode));
}

#[test]
fn version_mismatch_is_decodable_policy_lives_above() {
    // A Hello from a future version must still decode so the session layer
    // can reject it gracefully rather than choke on bytes.
    let hello = Message::Hello(Hello {
        version: PROTOCOL_VERSION + 1,
        role: Role::Controller,
        capabilities: CAP_CAN_CONTROL,
    });
    round_trip(hello);
}

/// Byte-for-byte vectors shared with the browser controller.
#[test]
fn cross_implementation_byte_vectors() {
    let hello = Message::Hello(Hello {
        version: 1,
        role: Role::Controller,
        capabilities: CAP_CAN_CONTROL,
    });
    assert_eq!(&hello.encode()[..], &[5, 0, 0, 0, 0x01, 1, 0, 1, 2]);

    let resolution = Message::Resolution(Resolution { width: 1920, height: 1080 });
    assert_eq!(
        &resolution.encode()[..],
        &[9, 0, 0, 0, 0x02, 0x80, 0x07, 0, 0, 0x38, 0x04, 0, 0]
    );

    let frame = Message::FrameData(FrameData {
        codec: Codec::Jpeg,
        seq: 7,
        timestamp_micros: 0x01_0000_0002,
        payload: Bytes::from_static(&[0xAB, 0xCD]),
    });
    assert_eq!(
        &frame.encode()[..],
        &[16, 0, 0, 0, 0x03, 0, 7, 0, 0, 0, 2, 0, 0, 0, 1, 0, 0, 0, 0xAB, 0xCD]
    );

    let key = Message::InputEvent(InputEvent::KeyDown {
        code: "KeyA".into(),
        modifiers: 0b1001,
    });
    assert_eq!(
        &key.encode()[..],
        &[8, 0, 0, 0, 0x04, 4, 0b1001, 4, 0x4B, 0x65, 0x79, 0x41]
    );

    let mouse = Message::InputEvent(InputEvent::MouseMove { x: 0, y: 65535 });
    assert_eq!(&mouse.encode()[..], &[6, 0, 0, 0, 0x04, 0, 0, 0, 0xFF, 0xFF]);

    let clipboard = Message::ClipboardData(ClipboardData { text: "hi".into() });
    assert_eq!(&clipboard.encode()[..], &[4, 0, 0, 0, 0x05, 0x00, 0x68, 0x69]);

    let text = Message::TextInput(TextInput { text: "hi".into() });
    assert_eq!(&text.encode()[..], &[3, 0, 0, 0, 0x06, 0x68, 0x69]);
}

#[test]
fn text_input_rejects_oversize_and_non_utf8() {
    let mut huge = BytesMut::new();
    huge.put_u32_le(1 + MAX_TEXT_INPUT_LEN as u32 + 1);
    huge.put_u8(MSG_TEXT_INPUT);
    huge.put_slice(&vec![b'a'; MAX_TEXT_INPUT_LEN + 1]);
    assert_eq!(
        Message::decode(&huge),
        Err(DecodeError::InvalidValue("text input too large"))
    );

    let mut bad_utf8 = BytesMut::new();
    bad_utf8.put_u32_le(3);
    bad_utf8.put_u8(MSG_TEXT_INPUT);
    bad_utf8.put_slice(&[0xFF, 0xFE]);
    assert_eq!(
        Message::decode(&bad_utf8),
        Err(DecodeError::InvalidValue("text input not UTF-8"))
    );
}

#[test]
fn clipboard_rejects_bad_kind_oversize_and_non_utf8() {
    let mut bad_kind = BytesMut::new();
    bad_kind.put_u32_le(2);
    bad_kind.put_u8(MSG_CLIPBOARD_DATA);
    bad_kind.put_u8(7); // unknown kind
    assert_eq!(
        Message::decode(&bad_kind),
        Err(DecodeError::InvalidValue("clipboard kind"))
    );

    let mut huge = BytesMut::new();
    huge.put_u32_le(2 + MAX_CLIPBOARD_LEN as u32 + 1);
    huge.put_u8(MSG_CLIPBOARD_DATA);
    huge.put_u8(0);
    huge.put_slice(&vec![b'a'; MAX_CLIPBOARD_LEN + 1]);
    assert_eq!(
        Message::decode(&huge),
        Err(DecodeError::InvalidValue("clipboard too large"))
    );

    let mut bad_utf8 = BytesMut::new();
    bad_utf8.put_u32_le(4);
    bad_utf8.put_u8(MSG_CLIPBOARD_DATA);
    bad_utf8.put_u8(0);
    bad_utf8.put_slice(&[0xFF, 0xFE]);
    assert_eq!(
        Message::decode(&bad_utf8),
        Err(DecodeError::InvalidValue("clipboard not UTF-8"))
    );
}

#[test]
fn stream_decoding_two_messages_back_to_back() {
    let a = Message::InputEvent(InputEvent::MouseMove { x: 1, y: 2 }).encode();
    let b = Message::Resolution(Resolution { width: 800, height: 600 }).encode();
    let mut stream = BytesMut::new();
    stream.put_slice(&a);
    stream.put_slice(&b);

    let Decoded::Message { message: m1, consumed } = Message::decode(&stream).unwrap() else {
        panic!()
    };
    assert_eq!(m1, Message::InputEvent(InputEvent::MouseMove { x: 1, y: 2 }));
    let Decoded::Message { message: m2, consumed: c2 } =
        Message::decode(&stream[consumed..]).unwrap()
    else {
        panic!()
    };
    assert_eq!(m2, Message::Resolution(Resolution { width: 800, height: 600 }));
    assert_eq!(consumed + c2, stream.len());
}

fn framed(msg_type: u8, payload: &[u8]) -> Vec<u8> {
    let mut wire = BytesMut::new();
    wire.put_u32_le(1 + payload.len() as u32);
    wire.put_u8(msg_type);
    wire.put_slice(payload);
    wire.to_vec()
}

#[test]
fn every_decode_error_has_its_input() {
    assert_eq!(
        Message::decode(&[0, 0, 0, 0, 1]),
        Err(DecodeError::InvalidValue("zero-length message"))
    );
    assert_eq!(Message::decode(&framed(1, &[1, 0, 1])), Err(DecodeError::BadLength(1)));
    assert_eq!(Message::decode(&framed(3, &[0; 12])), Err(DecodeError::BadLength(3)));
    assert_eq!(
        Message::decode(&framed(3, &[2, 0, 0, 0, 0, 0, 0, 0, 0, 0, 0, 0, 0])),
        Err(DecodeError::InvalidValue("codec"))
    );
    assert_eq!(Message::decode(&framed(4, &[])), Err(DecodeError::BadLength(4)));
    assert_eq!(
        Message::decode(&framed(4, &[9])),
        Err(DecodeError::InvalidValue("input event kind"))
    );
    assert_eq!(
        Message::decode(&framed(4, &[1, 3, 0, 0, 0, 0])),
        Err(DecodeError::InvalidValue("mouse button"))
    );
    assert_eq!(
        Message::decode(&framed(4, &[4, 0, 33])),
        Err(DecodeError::InvalidValue("key code length"))
    );
    assert_eq!(Message::decode(&framed(4, &[5, 0, 2, 65])), Err(DecodeError::BadLength(4)));
    assert_eq!(Message::decode(&framed(5, &[])), Err(DecodeError::BadLength(5)));
}

#[test]
fn decode_errors_in_words() {
    assert_eq!(DecodeError::Truncated.message(), "message truncated");
    assert_eq!(
        DecodeError::TooLong(67_108_865).message(),
        "declared length 67108865 exceeds maximum 67108864"
    );
    assert_eq!(
        DecodeError::BadLength(2).message(),
        "declared length does not match payload for message type 0x02"
    );
    assert_eq!(DecodeError::InvalidValue("role").message(), "invalid value for role");
    assert_eq!(DecodeError::BadKeyCode.message(), "key code is not valid UTF-8");
}

#[test]
fn what_decodes_encodes_to_the_same_bytes() {
    for wire in [
        framed(1, &[1, 0, 0, 3]),
        framed(2, &[1, 2, 3, 4, 5, 6, 7, 8]),
        framed(3, &[1, 9, 8, 7, 6, 1, 2, 3, 4, 5, 6, 7, 8, 42]),
        framed(4, &[3, 0x88, 0xFF, 0x00, 0x80]),
        framed(4, &[5, 7, 3, 70, 49, 55]),
        framed(5, &[0, 104, 105]),
        framed(6, &[]),
    ] {
        let Decoded::Message { message, consumed } = Message::decode(&wire).unwrap() else {
            panic!("expected Message");
        };
        assert_eq!(consumed, wire.len());
        assert_eq!(&message.encode()[..], &wire[..]);
    }
}
