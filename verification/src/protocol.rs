//! Transport-agnostic wire protocol for Tether.
//!
//! Every message is encoded as:
//!
//! ```text
//! [ u32 LE total_len ][ u8 msg_type ][ payload ... ]
//! ```
//!
//! where `total_len` covers everything after the length field (msg_type +
//! payload). The length prefix makes messages self-delimiting on byte-stream
//! transports (TCP); on message-oriented transports (WebSocket binary frames,
//! WebRTC data channels) exactly one protocol message is sent per transport
//! message and the prefix is redundant but harmless.

use bytes::{Bytes, BytesMut};
use vstd::prelude::*;
use vstd::utf8::{decode_utf8, encode_utf8, valid_utf8};

use crate::buffers::{
    buf_freeze, buf_len, buf_set, buf_with_capacity, bytes_copy_from_slice, bytes_of, bytes_slice,
    max_buffer, put_i16_le, put_slice, put_u16_le, put_u32_le, put_u64_le, put_u8, written,
};
use crate::le::{
    le16, le32, le64, lemma_le32_low, num16, num32, num64, read_i16, read_u16, read_u32, read_u64,
    signed16,
};
use crate::text::{decimal, hex, hex_text, push_numeral, utf8_text};

pub mod laws;
pub mod layout;
pub mod modifiers;

verus! {

/// Protocol version sent in the `Hello` exchange.
pub const PROTOCOL_VERSION: u16 = 1;

/// Sanity cap on a single message (length-prefix value). Larger lengths are
/// rejected as corrupt rather than buffered.
pub const MAX_MESSAGE_LEN: u32 = 64 * 1024 * 1024;

/// Longest accepted key code (W3C `KeyboardEvent.code` values are short;
/// anything longer is corrupt).
pub const MAX_KEY_CODE_LEN: usize = 32;

/// Clipboard payloads above this are refused (never silently truncated):
/// clipboard rides the ordered control channel and must not stall input.
pub const MAX_CLIPBOARD_LEN: usize = 256 * 1024;

/// Committed text from a soft keyboard is normally 1-3 chars; cap generously
/// but bound it so a runaway paste can't masquerade as typed text.
pub const MAX_TEXT_INPUT_LEN: usize = 1024;

/// Capability bit: this peer can be controlled (host path exists).
pub const CAP_CAN_HOST: u8 = 0b01;

/// Capability bit: this peer can control others.
pub const CAP_CAN_CONTROL: u8 = 0b10;

pub const MSG_HELLO: u8 = 0x01;

pub const MSG_RESOLUTION: u8 = 0x02;

pub const MSG_FRAME_DATA: u8 = 0x03;

pub const MSG_INPUT_EVENT: u8 = 0x04;

pub const MSG_CLIPBOARD_DATA: u8 = 0x05;

pub const MSG_TEXT_INPUT: u8 = 0x06;

pub const KIND_MOUSE_MOVE: u8 = 0;

pub const KIND_MOUSE_DOWN: u8 = 1;

pub const KIND_MOUSE_UP: u8 = 2;

pub const KIND_SCROLL: u8 = 3;

pub const KIND_KEY_DOWN: u8 = 4;

pub const KIND_KEY_UP: u8 = 5;

pub const CLIPBOARD_TEXT: u8 = 0;

#[derive(Debug, Clone, Copy, PartialEq, Eq, Structural)]
pub enum Role {
    Host,
    Controller,
}

impl Role {
    /// The byte that stands for the role on the wire.
    pub open spec fn code(self) -> u8 {
        match self {
            Role::Host => 0,
            Role::Controller => 1,
        }
    }

    /// The role a byte stands for.
    pub open spec fn parse(v: u8) -> Result<Role, DecodeError> {
        if v == 0 {
            Ok(Role::Host)
        } else if v == 1 {
            Ok(Role::Controller)
        } else {
            Err(DecodeError::InvalidValue("role"))
        }
    }

    fn to_u8(self) -> (v: u8)
        ensures
            v == self.code(),
    {
        match self {
            Role::Host => 0,
            Role::Controller => 1,
        }
    }

    fn from_u8(v: u8) -> (r: Result<Self, DecodeError>)
        ensures
            r == Role::parse(v),
    {
        match v {
            0 => Ok(Role::Host),
            1 => Ok(Role::Controller),
            _ => Err(DecodeError::InvalidValue("role")),
        }
    }
}

#[derive(Debug, Clone, Copy, PartialEq, Eq, Structural)]
pub enum Codec {
    Jpeg,
    H264,
}

impl Codec {
    /// The byte that stands for the codec on the wire.
    pub open spec fn code(self) -> u8 {
        match self {
            Codec::Jpeg => 0,
            Codec::H264 => 1,
        }
    }

    /// The codec a byte stands for.
    pub open spec fn parse(v: u8) -> Result<Codec, DecodeError> {
        if v == 0 {
            Ok(Codec::Jpeg)
        } else if v == 1 {
            Ok(Codec::H264)
        } else {
            Err(DecodeError::InvalidValue("codec"))
        }
    }

    fn to_u8(self) -> (v: u8)
        ensures
            v == self.code(),
    {
        match self {
            Codec::Jpeg => 0,
            Codec::H264 => 1,
        }
    }

    fn from_u8(v: u8) -> (r: Result<Self, DecodeError>)
        ensures
            r == Codec::parse(v),
    {
        match v {
            0 => Ok(Codec::Jpeg),
            1 => Ok(Codec::H264),
            _ => Err(DecodeError::InvalidValue("codec")),
        }
    }
}

/// DOM `MouseEvent.button` numbering, kept as-is on the wire.
#[derive(Debug, Clone, Copy, PartialEq, Eq, Structural)]
pub enum MouseButton {
    Left,
    Middle,
    Right,
}

impl MouseButton {
    /// The byte that stands for the button on the wire.
    pub open spec fn code(self) -> u8 {
        match self {
            MouseButton::Left => 0,
            MouseButton::Middle => 1,
            MouseButton::Right => 2,
        }
    }

    /// The button a byte stands for.
    pub open spec fn parse(v: u8) -> Result<MouseButton, DecodeError> {
        if v == 0 {
            Ok(MouseButton::Left)
        } else if v == 1 {
            Ok(MouseButton::Middle)
        } else if v == 2 {
            Ok(MouseButton::Right)
        } else {
            Err(DecodeError::InvalidValue("mouse button"))
        }
    }

    fn to_u8(self) -> (v: u8)
        ensures
            v == self.code(),
    {
        match self {
            MouseButton::Left => 0,
            MouseButton::Middle => 1,
            MouseButton::Right => 2,
        }
    }

    fn from_u8(v: u8) -> (r: Result<Self, DecodeError>)
        ensures
            r == MouseButton::parse(v),
    {
        match v {
            0 => Ok(MouseButton::Left),
            1 => Ok(MouseButton::Middle),
            2 => Ok(MouseButton::Right),
            _ => Err(DecodeError::InvalidValue("mouse button")),
        }
    }
}

#[derive(Debug, Clone, Copy, PartialEq, Eq, Structural)]
pub struct Hello {
    pub version: u16,
    pub role: Role,
    /// Bitmask of `CAP_CAN_HOST` / `CAP_CAN_CONTROL`.
    pub capabilities: u8,
}

#[derive(Debug, Clone, Copy, PartialEq, Eq, Structural)]
pub struct Resolution {
    pub width: u32,
    pub height: u32,
}

#[derive(Debug, Clone, PartialEq, Eq)]
pub struct FrameData {
    pub codec: Codec,
    pub seq: u32,
    /// Capture timestamp in microseconds, host clock (monotonic-ish; used for
    /// pacing/latency diagnostics, never for cross-machine comparison).
    pub timestamp_micros: u64,
    pub payload: Bytes,
}

/// Mouse coordinates are normalized fixed-point: `0..=65535` spans the host's
/// capture area. The host maps them onto its own coordinate space.
#[derive(Debug, Clone, PartialEq, Eq)]
pub enum InputEvent {
    MouseMove { x: u16, y: u16 },
    MouseDown { button: MouseButton, x: u16, y: u16 },
    MouseUp { button: MouseButton, x: u16, y: u16 },
    /// Scroll deltas in pixels (DOM `WheelEvent` deltaMode 0), positive = down/right.
    Scroll { dx: i16, dy: i16 },
    /// `code` is the W3C `KeyboardEvent.code` string (physical key, layout-independent).
    KeyDown { code: String, modifiers: u8 },
    KeyUp { code: String, modifiers: u8 },
}

/// Clipboard content, either direction. Text-only for now; the kind byte on
/// the wire reserves room for images/files without a protocol version bump.
#[derive(Debug, Clone, PartialEq, Eq)]
pub struct ClipboardData {
    pub text: String,
}

/// Committed text from a controller's soft keyboard (controller to host). The
/// host injects it as Unicode directly, bypassing the DOM-code to virtual-key
/// path, which soft keyboards can't drive (no usable `KeyboardEvent.code`) and
/// which can't express emoji or non-US layouts anyway.
#[derive(Debug, Clone, PartialEq, Eq)]
pub struct TextInput {
    pub text: String,
}

#[derive(Debug, Clone, PartialEq, Eq)]
pub enum Message {
    Hello(Hello),
    Resolution(Resolution),
    FrameData(FrameData),
    InputEvent(InputEvent),
    ClipboardData(ClipboardData),
    TextInput(TextInput),
}

#[derive(Debug, PartialEq, Eq)]
pub enum DecodeError {
    Truncated,
    TooLong(u32),
    BadLength(u8),
    InvalidValue(&'static str),
    BadKeyCode,
}

impl DecodeError {
    /// The error in words.
    pub open spec fn text(self) -> Seq<char> {
        match self {
            DecodeError::Truncated => "message truncated"@,
            DecodeError::TooLong(n) => "declared length "@ + decimal(n as nat) + " exceeds maximum "@
                + decimal(MAX_MESSAGE_LEN as nat),
            DecodeError::BadLength(t) =>
                "declared length does not match payload for message type 0x"@ + hex_text(seq![t]),
            DecodeError::InvalidValue(what) => "invalid value for "@ + what@,
            DecodeError::BadKeyCode => "key code is not valid UTF-8"@,
        }
    }

    pub fn message(&self) -> (r: String)
        ensures
            r@ == self.text(),
    {
        match self {
            DecodeError::Truncated => "message truncated".to_owned(),
            DecodeError::TooLong(n) => {
                let mut r: String = "declared length ".to_owned();
                push_numeral(&mut r, *n as u64, 10);
                r.append(" exceeds maximum ");
                push_numeral(&mut r, MAX_MESSAGE_LEN as u64, 10);
                r
            },
            DecodeError::BadLength(t) => {
                let mut r: String =
                    "declared length does not match payload for message type 0x".to_owned();
                let byte: [u8; 1] = [*t];
                let digits: String = hex(byte.as_slice());
                r.append(digits.as_str());
                assert(byte@ =~= seq![*t]);
                r
            },
            DecodeError::InvalidValue(what) => {
                let mut r: String = "invalid value for ".to_owned();
                r.append(what);
                r
            },
            DecodeError::BadKeyCode => "key code is not valid UTF-8".to_owned(),
        }
    }
}

/// Result of decoding one message from the front of a buffer.
#[derive(Debug, PartialEq)]
pub enum Decoded {
    /// A complete, understood message; `consumed` bytes were used.
    Message { message: Message, consumed: usize },
    /// The buffer does not yet hold one complete message (stream transports:
    /// read more bytes and retry).
    NeedMoreData,
    /// A complete message of a type this version does not understand. The
    /// length prefix lets the caller skip it: drop `consumed` bytes and go on.
    Unknown { msg_type: u8, consumed: usize },
}

/// An input event as a value: the key code as its characters.
#[verifier::ext_equal]
pub enum InputModel {
    MouseMove { x: u16, y: u16 },
    MouseDown { button: MouseButton, x: u16, y: u16 },
    MouseUp { button: MouseButton, x: u16, y: u16 },
    Scroll { dx: i16, dy: i16 },
    KeyDown { code: Seq<char>, modifiers: u8 },
    KeyUp { code: Seq<char>, modifiers: u8 },
}

/// A message as a value: texts as their characters, the frame as its bytes.
#[verifier::ext_equal]
pub enum MessageModel {
    Hello(Hello),
    Resolution(Resolution),
    FrameData { codec: Codec, seq: u32, timestamp_micros: u64, payload: Seq<u8> },
    InputEvent(InputModel),
    ClipboardData(Seq<char>),
    TextInput(Seq<char>),
}

/// What stands at the front of a buffer, as a value.
#[verifier::ext_equal]
pub enum DecodedModel {
    Message { message: MessageModel, consumed: int },
    NeedMoreData,
    Unknown { msg_type: u8, consumed: int },
}

impl View for InputEvent {
    type V = InputModel;

    open spec fn view(&self) -> InputModel {
        match *self {
            InputEvent::MouseMove { x, y } => InputModel::MouseMove { x, y },
            InputEvent::MouseDown { button, x, y } => InputModel::MouseDown { button, x, y },
            InputEvent::MouseUp { button, x, y } => InputModel::MouseUp { button, x, y },
            InputEvent::Scroll { dx, dy } => InputModel::Scroll { dx, dy },
            InputEvent::KeyDown { code, modifiers } => InputModel::KeyDown {
                code: code@,
                modifiers,
            },
            InputEvent::KeyUp { code, modifiers } => InputModel::KeyUp { code: code@, modifiers },
        }
    }
}

impl View for Message {
    type V = MessageModel;

    open spec fn view(&self) -> MessageModel {
        match *self {
            Message::Hello(h) => MessageModel::Hello(h),
            Message::Resolution(r) => MessageModel::Resolution(r),
            Message::FrameData(f) => MessageModel::FrameData {
                codec: f.codec,
                seq: f.seq,
                timestamp_micros: f.timestamp_micros,
                payload: bytes_of(f.payload),
            },
            Message::InputEvent(ev) => MessageModel::InputEvent(ev@),
            Message::ClipboardData(c) => MessageModel::ClipboardData(c.text@),
            Message::TextInput(t) => MessageModel::TextInput(t.text@),
        }
    }
}

impl View for Decoded {
    type V = DecodedModel;

    open spec fn view(&self) -> DecodedModel {
        match *self {
            Decoded::Message { message, consumed } => DecodedModel::Message {
                message: message@,
                consumed: consumed as int,
            },
            Decoded::NeedMoreData => DecodedModel::NeedMoreData,
            Decoded::Unknown { msg_type, consumed } => DecodedModel::Unknown {
                msg_type,
                consumed: consumed as int,
            },
        }
    }
}

/// The bytes of an input event: its kind, then its fields.
pub open spec fn input_bytes(ev: InputModel) -> Seq<u8> {
    match ev {
        InputModel::MouseMove { x, y } => seq![KIND_MOUSE_MOVE] + le16(x as int) + le16(y as int),
        InputModel::MouseDown { button, x, y } => seq![KIND_MOUSE_DOWN, button.code()] + le16(
            x as int,
        ) + le16(y as int),
        InputModel::MouseUp { button, x, y } => seq![KIND_MOUSE_UP, button.code()] + le16(x as int)
            + le16(y as int),
        InputModel::Scroll { dx, dy } => seq![KIND_SCROLL] + le16(dx as int % 0x1_0000) + le16(
            dy as int % 0x1_0000,
        ),
        InputModel::KeyDown { code, modifiers } => seq![
            KIND_KEY_DOWN,
            modifiers,
            encode_utf8(code).len() as u8,
        ] + encode_utf8(code),
        InputModel::KeyUp { code, modifiers } => seq![
            KIND_KEY_UP,
            modifiers,
            encode_utf8(code).len() as u8,
        ] + encode_utf8(code),
    }
}

/// The bytes of a message after the length prefix: its type, then its payload.
pub open spec fn body(m: MessageModel) -> Seq<u8> {
    match m {
        MessageModel::Hello(h) => seq![MSG_HELLO] + le16(h.version as int) + seq![
            h.role.code(),
            h.capabilities,
        ],
        MessageModel::Resolution(r) => seq![MSG_RESOLUTION] + le32(r.width as int) + le32(
            r.height as int,
        ),
        MessageModel::FrameData { codec, seq, timestamp_micros, payload } => seq![
            MSG_FRAME_DATA,
            codec.code(),
        ] + le32(seq as int) + le64(timestamp_micros as int) + payload,
        MessageModel::InputEvent(ev) => seq![MSG_INPUT_EVENT] + input_bytes(ev),
        MessageModel::ClipboardData(text) => seq![MSG_CLIPBOARD_DATA, CLIPBOARD_TEXT] + encode_utf8(
            text,
        ),
        MessageModel::TextInput(text) => seq![MSG_TEXT_INPUT] + encode_utf8(text),
    }
}

/// The wire form of a message: the length of its body, then its body.
pub open spec fn wire(m: MessageModel) -> Seq<u8> {
    le32(body(m).len() as int) + body(m)
}

/// The messages within the limits that the sender owes: key codes, clipboard
/// and typed text are bounded.
pub open spec fn within_limits(m: MessageModel) -> bool {
    match m {
        MessageModel::InputEvent(InputModel::KeyDown { code, .. }) => encode_utf8(code).len()
            <= MAX_KEY_CODE_LEN,
        MessageModel::InputEvent(InputModel::KeyUp { code, .. }) => encode_utf8(code).len()
            <= MAX_KEY_CODE_LEN,
        MessageModel::ClipboardData(text) => encode_utf8(text).len() <= MAX_CLIPBOARD_LEN,
        MessageModel::TextInput(text) => encode_utf8(text).len() <= MAX_TEXT_INPUT_LEN,
        _ => true,
    }
}

/// A hello's payload: version, role, capabilities.
pub open spec fn parse_hello(p: Seq<u8>, t: u8) -> Result<Hello, DecodeError> {
    if p.len() != 4 {
        Err(DecodeError::BadLength(t))
    } else {
        match Role::parse(p[2]) {
            Ok(role) => Ok(
                Hello { version: num16(p, 0) as u16, role, capabilities: p[3] },
            ),
            Err(e) => Err(e),
        }
    }
}

/// A resolution's payload: width, height.
pub open spec fn parse_resolution(p: Seq<u8>, t: u8) -> Result<Resolution, DecodeError> {
    if p.len() != 8 {
        Err(DecodeError::BadLength(t))
    } else {
        Ok(Resolution { width: num32(p, 0) as u32, height: num32(p, 4) as u32 })
    }
}

/// A frame's payload: codec, sequence number, timestamp, and the frame's bytes.
pub open spec fn parse_frame_data(p: Seq<u8>, t: u8) -> Result<MessageModel, DecodeError> {
    if p.len() < 13 {
        Err(DecodeError::BadLength(t))
    } else {
        match Codec::parse(p[0]) {
            Ok(codec) => Ok(
                MessageModel::FrameData {
                    codec,
                    seq: num32(p, 1) as u32,
                    timestamp_micros: num64(p, 5) as u64,
                    payload: p.skip(13),
                },
            ),
            Err(e) => Err(e),
        }
    }
}

/// A key event's fields: modifiers, the code's length, the code as UTF-8.
pub open spec fn parse_key(p: Seq<u8>, t: u8) -> Result<(Seq<char>, u8), DecodeError> {
    if p.len() < 2 {
        Err(DecodeError::BadLength(t))
    } else if p[1] > MAX_KEY_CODE_LEN {
        Err(DecodeError::InvalidValue("key code length"))
    } else if p.len() != 2 + p[1] {
        Err(DecodeError::BadLength(t))
    } else if !valid_utf8(p.skip(2)) {
        Err(DecodeError::BadKeyCode)
    } else {
        Ok((decode_utf8(p.skip(2)), p[0]))
    }
}

/// A clipboard's payload: its kind, then the text as UTF-8.
pub open spec fn parse_clipboard(p: Seq<u8>, t: u8) -> Result<Seq<char>, DecodeError> {
    if p.len() == 0 {
        Err(DecodeError::BadLength(t))
    } else if p[0] != CLIPBOARD_TEXT {
        Err(DecodeError::InvalidValue("clipboard kind"))
    } else if p.len() - 1 > MAX_CLIPBOARD_LEN {
        Err(DecodeError::InvalidValue("clipboard too large"))
    } else if !valid_utf8(p.skip(1)) {
        Err(DecodeError::InvalidValue("clipboard not UTF-8"))
    } else {
        Ok(decode_utf8(p.skip(1)))
    }
}

/// Typed text: all of the payload, as UTF-8.
pub open spec fn parse_text_input(p: Seq<u8>) -> Result<Seq<char>, DecodeError> {
    if p.len() > MAX_TEXT_INPUT_LEN {
        Err(DecodeError::InvalidValue("text input too large"))
    } else if !valid_utf8(p) {
        Err(DecodeError::InvalidValue("text input not UTF-8"))
    } else {
        Ok(decode_utf8(p))
    }
}

/// An input event's payload: its kind, then the fields of that kind.
pub open spec fn parse_input_event(p: Seq<u8>, t: u8) -> Result<InputModel, DecodeError> {
    if p.len() == 0 {
        Err(DecodeError::BadLength(t))
    } else {
        let kind = p[0];
        let fields = p.skip(1);
        if kind == KIND_MOUSE_MOVE {
            if fields.len() != 4 {
                Err(DecodeError::BadLength(t))
            } else {
                Ok(InputModel::MouseMove { x: num16(fields, 0) as u16, y: num16(fields, 2) as u16 })
            }
        } else if kind == KIND_MOUSE_DOWN || kind == KIND_MOUSE_UP {
            if fields.len() != 5 {
                Err(DecodeError::BadLength(t))
            } else {
                let x = num16(fields, 1) as u16;
                let y = num16(fields, 3) as u16;
                match MouseButton::parse(fields[0]) {
                    Ok(button) => if kind == KIND_MOUSE_DOWN {
                        Ok(InputModel::MouseDown { button, x, y })
                    } else {
                        Ok(InputModel::MouseUp { button, x, y })
                    },
                    Err(e) => Err(e),
                }
            }
        } else if kind == KIND_SCROLL {
            if fields.len() != 4 {
                Err(DecodeError::BadLength(t))
            } else {
                Ok(
                    InputModel::Scroll {
                        dx: signed16(num16(fields, 0)) as i16,
                        dy: signed16(num16(fields, 2)) as i16,
                    },
                )
            }
        } else if kind == KIND_KEY_DOWN {
            match parse_key(fields, t) {
                Ok((code, modifiers)) => Ok(InputModel::KeyDown { code, modifiers }),
                Err(e) => Err(e),
            }
        } else if kind == KIND_KEY_UP {
            match parse_key(fields, t) {
                Ok((code, modifiers)) => Ok(InputModel::KeyUp { code, modifiers }),
                Err(e) => Err(e),
            }
        } else {
            Err(DecodeError::InvalidValue("input event kind"))
        }
    }
}

/// The message types this version understands.
pub open spec fn known_type(t: u8) -> bool {
    MSG_HELLO <= t <= MSG_TEXT_INPUT
}

/// A payload of a known type.
pub open spec fn parse_payload(t: u8, p: Seq<u8>) -> Result<MessageModel, DecodeError> {
    if t == MSG_HELLO {
        match parse_hello(p, t) {
            Ok(h) => Ok(MessageModel::Hello(h)),
            Err(e) => Err(e),
        }
    } else if t == MSG_RESOLUTION {
        match parse_resolution(p, t) {
            Ok(r) => Ok(MessageModel::Resolution(r)),
            Err(e) => Err(e),
        }
    } else if t == MSG_FRAME_DATA {
        parse_frame_data(p, t)
    } else if t == MSG_INPUT_EVENT {
        match parse_input_event(p, t) {
            Ok(ev) => Ok(MessageModel::InputEvent(ev)),
            Err(e) => Err(e),
        }
    } else if t == MSG_CLIPBOARD_DATA {
        match parse_clipboard(p, t) {
            Ok(text) => Ok(MessageModel::ClipboardData(text)),
            Err(e) => Err(e),
        }
    } else {
        match parse_text_input(p) {
            Ok(text) => Ok(MessageModel::TextInput(text)),
            Err(e) => Err(e),
        }
    }
}

/// What stands at the front of a buffer.
pub open spec fn parse(buf: Seq<u8>) -> Result<DecodedModel, DecodeError> {
    if buf.len() < 4 {
        Ok(DecodedModel::NeedMoreData)
    } else {
        let total_len = num32(buf, 0);
        let consumed = 4 + total_len;
        if total_len > MAX_MESSAGE_LEN {
            Err(DecodeError::TooLong(total_len as u32))
        } else if total_len == 0 {
            Err(DecodeError::InvalidValue("zero-length message"))
        } else if buf.len() < consumed {
            Ok(DecodedModel::NeedMoreData)
        } else if !known_type(buf[4]) {
            Ok(DecodedModel::Unknown { msg_type: buf[4], consumed })
        } else {
            match parse_payload(buf[4], buf.subrange(5, consumed)) {
                Ok(message) => Ok(DecodedModel::Message { message, consumed }),
                Err(e) => Err(e),
            }
        }
    }
}

/// Whether encoding a message fits in memory.
pub open spec fn fits_buffer(m: MessageModel) -> bool {
    body(m).len() + 4 <= max_buffer()
}

impl Message {
    /// Encode to the full wire form, including the length prefix.
    pub fn encode(&self) -> (r: Bytes)
        requires
            within_limits(self@),
            fits_buffer(self@),
        ensures
            bytes_of(r) == wire(self@),
    {
        let mut buf: BytesMut = buf_with_capacity(self.encoded_payload_hint() + 5);
        put_u32_le(&mut buf, 0);  // length placeholder
        let ghost placeholder = le32(0);
        match self {
            Message::Hello(h) => {
                put_u8(&mut buf, MSG_HELLO);
                put_u16_le(&mut buf, h.version);
                put_u8(&mut buf, h.role.to_u8());
                put_u8(&mut buf, h.capabilities);
            },
            Message::Resolution(r) => {
                put_u8(&mut buf, MSG_RESOLUTION);
                put_u32_le(&mut buf, r.width);
                put_u32_le(&mut buf, r.height);
            },
            Message::FrameData(f) => {
                put_u8(&mut buf, MSG_FRAME_DATA);
                put_u8(&mut buf, f.codec.to_u8());
                put_u32_le(&mut buf, f.seq);
                put_u64_le(&mut buf, f.timestamp_micros);
                put_slice(&mut buf, bytes_slice(&f.payload));
            },
            Message::InputEvent(ev) => {
                put_u8(&mut buf, MSG_INPUT_EVENT);
                encode_input_event(&mut buf, ev);
            },
            Message::ClipboardData(c) => {
                put_u8(&mut buf, MSG_CLIPBOARD_DATA);
                put_u8(&mut buf, CLIPBOARD_TEXT);
                put_slice(&mut buf, c.text.as_str().as_bytes());
            },
            Message::TextInput(t) => {
                put_u8(&mut buf, MSG_TEXT_INPUT);
                put_slice(&mut buf, t.text.as_str().as_bytes());
            },
        }
        assert(written(buf) =~= placeholder + body(self@));
        let body_len: u64 = (buf_len(&buf) - 4) as u64;
        let total_len: u32 = body_len as u32;
        buf_set(&mut buf, 0, (total_len % 256) as u8);
        buf_set(&mut buf, 1, ((total_len / 256) % 256) as u8);
        buf_set(&mut buf, 2, ((total_len / 0x1_0000) % 256) as u8);
        buf_set(&mut buf, 3, ((total_len / 0x100_0000) % 256) as u8);
        proof {
            assert(body_len as u32 == body_len % 0x1_0000_0000) by (bit_vector);
            lemma_le32_low(total_len as int, body_len as int / 0x1_0000_0000);
            assert(written(buf) =~= le32(total_len as int) + body(self@));
        }
        buf_freeze(buf)
    }

    fn encoded_payload_hint(&self) -> (n: usize)
        requires
            fits_buffer(self@),
        ensures
            n == match self@ {
                MessageModel::FrameData { payload, .. } => 14 + payload.len(),
                _ => 64,
            },
            n + 5 <= isize::MAX,
    {
        match self {
            Message::FrameData(f) => 14 + bytes_slice(&f.payload).len(),
            _ => 64,
        }
    }

    /// Decode one message from the front of `buf`. See [`Decoded`].
    pub fn decode(buf: &[u8]) -> (r: Result<Decoded, DecodeError>)
        ensures
            match r {
                Ok(d) => parse(buf@) == Ok::<DecodedModel, DecodeError>(d@),
                Err(e) => parse(buf@) == Err::<DecodedModel, DecodeError>(e),
            },
    {
        if buf.len() < 4 {
            return Ok(Decoded::NeedMoreData);
        }
        let total_len: u32 = read_u32(buf, 0);
        if total_len > MAX_MESSAGE_LEN {
            return Err(DecodeError::TooLong(total_len));
        }
        if total_len == 0 {
            return Err(DecodeError::InvalidValue("zero-length message"));
        }
        let consumed: usize = 4 + total_len as usize;
        if buf.len() < consumed {
            return Ok(Decoded::NeedMoreData);
        }
        let msg_type: u8 = buf[4];
        let payload: &[u8] = &buf[5..consumed];
        let message: Message = match msg_type {
            MSG_HELLO => Message::Hello(decode_hello(payload, msg_type)?),
            MSG_RESOLUTION => Message::Resolution(decode_resolution(payload, msg_type)?),
            MSG_FRAME_DATA => Message::FrameData(decode_frame_data(payload, msg_type)?),
            MSG_INPUT_EVENT => Message::InputEvent(decode_input_event(payload, msg_type)?),
            MSG_CLIPBOARD_DATA => Message::ClipboardData(decode_clipboard(payload, msg_type)?),
            MSG_TEXT_INPUT => Message::TextInput(decode_text_input(payload)?),
            other => return Ok(Decoded::Unknown { msg_type: other, consumed }),
        };
        Ok(Decoded::Message { message, consumed })
    }
}

fn encode_key(buf: &mut BytesMut, code: &str, modifiers: u8)
    requires
        encode_utf8(code@).len() <= MAX_KEY_CODE_LEN,
        written(*old(buf)).len() + 2 + encode_utf8(code@).len() <= max_buffer(),
    ensures
        written(*final(buf)) == written(*old(buf)) + seq![
            modifiers,
            encode_utf8(code@).len() as u8,
        ] + encode_utf8(code@),
{
    put_u8(buf, modifiers);
    put_u8(buf, code.len() as u8);
    put_slice(buf, code.as_bytes());
}

fn encode_input_event(buf: &mut BytesMut, ev: &InputEvent)
    requires
        within_limits(MessageModel::InputEvent(ev@)),
        written(*old(buf)).len() + input_bytes(ev@).len() <= max_buffer(),
    ensures
        written(*final(buf)) == written(*old(buf)) + input_bytes(ev@),
{
    match ev {
        InputEvent::MouseMove { x, y } => {
            put_u8(buf, KIND_MOUSE_MOVE);
            put_u16_le(buf, *x);
            put_u16_le(buf, *y);
        },
        InputEvent::MouseDown { button, x, y } => {
            put_u8(buf, KIND_MOUSE_DOWN);
            put_u8(buf, button.to_u8());
            put_u16_le(buf, *x);
            put_u16_le(buf, *y);
        },
        InputEvent::MouseUp { button, x, y } => {
            put_u8(buf, KIND_MOUSE_UP);
            put_u8(buf, button.to_u8());
            put_u16_le(buf, *x);
            put_u16_le(buf, *y);
        },
        InputEvent::Scroll { dx, dy } => {
            put_u8(buf, KIND_SCROLL);
            put_i16_le(buf, *dx);
            put_i16_le(buf, *dy);
        },
        InputEvent::KeyDown { code, modifiers } => {
            put_u8(buf, KIND_KEY_DOWN);
            encode_key(buf, code.as_str(), *modifiers);
        },
        InputEvent::KeyUp { code, modifiers } => {
            put_u8(buf, KIND_KEY_UP);
            encode_key(buf, code.as_str(), *modifiers);
        },
    }
    assert(written(*buf) =~= written(*old(buf)) + input_bytes(ev@));
}

fn decode_hello(p: &[u8], t: u8) -> (r: Result<Hello, DecodeError>)
    ensures
        r == parse_hello(p@, t),
{
    if p.len() != 4 {
        return Err(DecodeError::BadLength(t));
    }
    let role: Role = match Role::from_u8(p[2]) {
        Ok(role) => role,
        Err(e) => return Err(e),
    };
    Ok(Hello { version: read_u16(p, 0), role, capabilities: p[3] })
}

fn decode_resolution(p: &[u8], t: u8) -> (r: Result<Resolution, DecodeError>)
    ensures
        r == parse_resolution(p@, t),
{
    if p.len() != 8 {
        return Err(DecodeError::BadLength(t));
    }
    Ok(Resolution { width: read_u32(p, 0), height: read_u32(p, 4) })
}

fn decode_frame_data(p: &[u8], t: u8) -> (r: Result<FrameData, DecodeError>)
    ensures
        match r {
            Ok(f) => parse_frame_data(p@, t) == Ok::<MessageModel, DecodeError>(
                Message::FrameData(f)@,
            ),
            Err(e) => parse_frame_data(p@, t) == Err::<MessageModel, DecodeError>(e),
        },
{
    if p.len() < 13 {
        return Err(DecodeError::BadLength(t));
    }
    let codec: Codec = match Codec::from_u8(p[0]) {
        Ok(codec) => codec,
        Err(e) => return Err(e),
    };
    let payload: &[u8] = &p[13..p.len()];
    assert(payload@ =~= p@.skip(13));
    Ok(
        FrameData {
            codec,
            seq: read_u32(p, 1),
            timestamp_micros: read_u64(p, 5),
            payload: bytes_copy_from_slice(payload),
        },
    )
}

fn decode_key(p: &[u8], t: u8) -> (r: Result<(String, u8), DecodeError>)
    ensures
        match r {
            Ok((code, modifiers)) => parse_key(p@, t) == Ok::<(Seq<char>, u8), DecodeError>(
                (code@, modifiers),
            ),
            Err(e) => parse_key(p@, t) == Err::<(Seq<char>, u8), DecodeError>(e),
        },
{
    if p.len() < 2 {
        return Err(DecodeError::BadLength(t));
    }
    let modifiers: u8 = p[0];
    let code_len: usize = p[1] as usize;
    if code_len > MAX_KEY_CODE_LEN {
        return Err(DecodeError::InvalidValue("key code length"));
    }
    if p.len() != 2 + code_len {
        return Err(DecodeError::BadLength(t));
    }
    let code_bytes: &[u8] = &p[2..2 + code_len];
    assert(code_bytes@ =~= p@.skip(2));
    match utf8_text(code_bytes) {
        Some(code) => Ok((code, modifiers)),
        None => Err(DecodeError::BadKeyCode),
    }
}

fn decode_clipboard(p: &[u8], t: u8) -> (r: Result<ClipboardData, DecodeError>)
    ensures
        match r {
            Ok(c) => parse_clipboard(p@, t) == Ok::<Seq<char>, DecodeError>(c.text@),
            Err(e) => parse_clipboard(p@, t) == Err::<Seq<char>, DecodeError>(e),
        },
{
    if p.len() == 0 {
        return Err(DecodeError::BadLength(t));
    }
    if p[0] != CLIPBOARD_TEXT {
        return Err(DecodeError::InvalidValue("clipboard kind"));
    }
    let body: &[u8] = &p[1..p.len()];
    assert(body@ =~= p@.skip(1));
    if body.len() > MAX_CLIPBOARD_LEN {
        return Err(DecodeError::InvalidValue("clipboard too large"));
    }
    match utf8_text(body) {
        Some(text) => Ok(ClipboardData { text }),
        None => Err(DecodeError::InvalidValue("clipboard not UTF-8")),
    }
}

fn decode_text_input(p: &[u8]) -> (r: Result<TextInput, DecodeError>)
    ensures
        match r {
            Ok(t) => parse_text_input(p@) == Ok::<Seq<char>, DecodeError>(t.text@),
            Err(e) => parse_text_input(p@) == Err::<Seq<char>, DecodeError>(e),
        },
{
    if p.len() > MAX_TEXT_INPUT_LEN {
        return Err(DecodeError::InvalidValue("text input too large"));
    }
    match utf8_text(p) {
        Some(text) => Ok(TextInput { text }),
        None => Err(DecodeError::InvalidValue("text input not UTF-8")),
    }
}

fn decode_input_event(p: &[u8], t: u8) -> (r: Result<InputEvent, DecodeError>)
    ensures
        match r {
            Ok(ev) => parse_input_event(p@, t) == Ok::<InputModel, DecodeError>(ev@),
            Err(e) => parse_input_event(p@, t) == Err::<InputModel, DecodeError>(e),
        },
{
    if p.len() == 0 {
        return Err(DecodeError::BadLength(t));
    }
    let kind: u8 = p[0];
    let body: &[u8] = &p[1..p.len()];
    assert(body@ =~= p@.skip(1));
    match kind {
        KIND_MOUSE_MOVE => {
            if body.len() != 4 {
                return Err(DecodeError::BadLength(t));
            }
            Ok(InputEvent::MouseMove { x: read_u16(body, 0), y: read_u16(body, 2) })
        },
        KIND_MOUSE_DOWN | KIND_MOUSE_UP => {
            if body.len() != 5 {
                return Err(DecodeError::BadLength(t));
            }
            let button: MouseButton = match MouseButton::from_u8(body[0]) {
                Ok(button) => button,
                Err(e) => return Err(e),
            };
            let x: u16 = read_u16(body, 1);
            let y: u16 = read_u16(body, 3);
            Ok(
                if kind == KIND_MOUSE_DOWN {
                    InputEvent::MouseDown { button, x, y }
                } else {
                    InputEvent::MouseUp { button, x, y }
                },
            )
        },
        KIND_SCROLL => {
            if body.len() != 4 {
                return Err(DecodeError::BadLength(t));
            }
            Ok(InputEvent::Scroll { dx: read_i16(body, 0), dy: read_i16(body, 2) })
        },
        KIND_KEY_DOWN => {
            let (code, modifiers) = decode_key(body, t)?;
            Ok(InputEvent::KeyDown { code, modifiers })
        },
        KIND_KEY_UP => {
            let (code, modifiers) = decode_key(body, t)?;
            Ok(InputEvent::KeyUp { code, modifiers })
        },
        _ => Err(DecodeError::InvalidValue("input event kind")),
    }
}

} // verus!
