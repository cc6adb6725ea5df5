//! The wire format byte by byte: which bytes each message is sent as, what any
//! such bytes are read as, and which bytes are refused.

use vstd::prelude::*;
use vstd::utf8::{decode_utf8, encode_utf8, valid_utf8};

use super::laws::law_round_trip;
use super::{
    parse, wire, within_limits, ClipboardData, Codec, DecodeError, DecodedModel, Hello, InputEvent,
    InputModel, Message, MessageModel, MouseButton, Resolution, Role, TextInput,
};
use crate::buffers::bytes_of;
use crate::le::{le32, le64};
use crate::text::{decimal, hex_text};

verus! {

/// A hello is nine bytes: its length, type 1, the version low byte first, the
/// role (0 for a host, 1 for a controller) and the capabilities.
pub proof fn law_hello_bytes(version: u16, role: Role, capabilities: u8, rest: Seq<u8>)
    ensures
        ({
            let m = Message::Hello(Hello { version, role, capabilities });
            let r: u8 = if role == Role::Host { 0 } else { 1 };
            let bytes = seq![
                5u8, 0, 0, 0, 1, (version % 256) as u8, (version / 256) as u8, r, capabilities,
            ];
            &&& wire(m@) == bytes
            &&& parse(bytes + rest) == Ok::<DecodedModel, DecodeError>(
                DecodedModel::Message { message: m@, consumed: 9 },
            )
        }),
{
    let m = Message::Hello(Hello { version, role, capabilities });
    let r: u8 = if role == Role::Host { 0 } else { 1 };
    assert(wire(m@) =~= seq![
        5u8, 0, 0, 0, 1, (version % 256) as u8, (version / 256) as u8, r, capabilities,
    ]);
    law_round_trip(m@, rest);
}

/// A resolution is thirteen bytes: its length, type 2, the width and the height,
/// low byte first.
pub proof fn law_resolution_bytes(width: u32, height: u32, rest: Seq<u8>)
    ensures
        ({
            let m = Message::Resolution(Resolution { width, height });
            let bytes = seq![
                9u8, 0, 0, 0, 2,
                (width % 256) as u8,
                (width / 256 % 256) as u8,
                (width / 65536 % 256) as u8,
                (width / 16777216) as u8,
                (height % 256) as u8,
                (height / 256 % 256) as u8,
                (height / 65536 % 256) as u8,
                (height / 16777216) as u8,
            ];
            &&& wire(m@) == bytes
            &&& parse(bytes + rest) == Ok::<DecodedModel, DecodeError>(
                DecodedModel::Message { message: m@, consumed: 13 },
            )
        }),
{
    let m = Message::Resolution(Resolution { width, height });
    assert(wire(m@) =~= seq![
        9u8, 0, 0, 0, 2,
        (width % 256) as u8,
        (width / 256 % 256) as u8,
        (width / 65536 % 256) as u8,
        (width / 16777216) as u8,
        (height % 256) as u8,
        (height / 256 % 256) as u8,
        (height / 65536 % 256) as u8,
        (height / 16777216) as u8,
    ]);
    law_round_trip(m@, rest);
}

/// A pointer move is ten bytes: its length, type 4, kind 0, then `x` and `y`, each
/// low byte first.
pub proof fn law_move_bytes(x: u16, y: u16, rest: Seq<u8>)
    ensures
        ({
            let m = Message::InputEvent(InputEvent::MouseMove { x, y });
            let bytes = seq![
                6u8, 0, 0, 0, 4, 0,
                (x % 256) as u8, (x / 256) as u8, (y % 256) as u8, (y / 256) as u8,
            ];
            &&& wire(m@) == bytes
            &&& parse(bytes + rest) == Ok::<DecodedModel, DecodeError>(
                DecodedModel::Message { message: m@, consumed: 10 },
            )
        }),
{
    let m = Message::InputEvent(InputEvent::MouseMove { x, y });
    assert(wire(m@) =~= seq![
        6u8, 0, 0, 0, 4, 0,
        (x % 256) as u8, (x / 256) as u8, (y % 256) as u8, (y / 256) as u8,
    ]);
    law_round_trip(m@, rest);
}

/// A press and a release are eleven bytes: the length, type 4, kind 1 for a press
/// and 2 for a release, the button as the DOM numbers it (left 0, middle 1, right
/// 2), then `x` and `y`, each low byte first.
pub proof fn law_button_bytes(button: MouseButton, x: u16, y: u16, rest: Seq<u8>)
    ensures
        ({
            let b: u8 = match button {
                MouseButton::Left => 0,
                MouseButton::Middle => 1,
                MouseButton::Right => 2,
            };
            let (x0, x1) = ((x % 256) as u8, (x / 256) as u8);
            let (y0, y1) = ((y % 256) as u8, (y / 256) as u8);
            let press = Message::InputEvent(InputEvent::MouseDown { button, x, y });
            let release = Message::InputEvent(InputEvent::MouseUp { button, x, y });
            let pressed = seq![7u8, 0, 0, 0, 4, 1, b, x0, x1, y0, y1];
            let released = seq![7u8, 0, 0, 0, 4, 2, b, x0, x1, y0, y1];
            &&& wire(press@) == pressed
            &&& wire(release@) == released
            &&& parse(pressed + rest) == Ok::<DecodedModel, DecodeError>(
                DecodedModel::Message { message: press@, consumed: 11 },
            )
            &&& parse(released + rest) == Ok::<DecodedModel, DecodeError>(
                DecodedModel::Message { message: release@, consumed: 11 },
            )
        }),
{
    let b: u8 = match button {
        MouseButton::Left => 0,
        MouseButton::Middle => 1,
        MouseButton::Right => 2,
    };
    let (x0, x1) = ((x % 256) as u8, (x / 256) as u8);
    let (y0, y1) = ((y % 256) as u8, (y / 256) as u8);
    let press = Message::InputEvent(InputEvent::MouseDown { button, x, y });
    let release = Message::InputEvent(InputEvent::MouseUp { button, x, y });
    assert(wire(press@) =~= seq![7u8, 0, 0, 0, 4, 1, b, x0, x1, y0, y1]);
    assert(wire(release@) =~= seq![7u8, 0, 0, 0, 4, 2, b, x0, x1, y0, y1]);
    law_round_trip(press@, rest);
    law_round_trip(release@, rest);
}

/// What the bytes of a press or a release are read as, whatever they hold: kind 1
/// presses and kind 2 releases; button byte 0 is left, 1 middle, 2 right and any
/// other refused; the next two pairs, low byte first, are `x` and `y`.
pub proof fn law_button_bytes_read(
    kind: u8,
    b: u8,
    x0: u8,
    x1: u8,
    y0: u8,
    y1: u8,
    rest: Seq<u8>,
)
    requires
        kind == 1 || kind == 2,
    ensures
        ({
            let read = parse(seq![7u8, 0, 0, 0, 4, kind, b, x0, x1, y0, y1] + rest);
            let x = (x0 + 256 * x1) as u16;
            let y = (y0 + 256 * y1) as u16;
            if b > 2 {
                read == Err::<DecodedModel, DecodeError>(DecodeError::InvalidValue("mouse button"))
            } else {
                let button = if b == 0 {
                    MouseButton::Left
                } else if b == 1 {
                    MouseButton::Middle
                } else {
                    MouseButton::Right
                };
                let ev = if kind == 1 {
                    InputModel::MouseDown { button, x, y }
                } else {
                    InputModel::MouseUp { button, x, y }
                };
                read == Ok::<DecodedModel, DecodeError>(
                    DecodedModel::Message { message: MessageModel::InputEvent(ev), consumed: 11 },
                )
            }
        }),
{
    let buf = seq![7u8, 0, 0, 0, 4, kind, b, x0, x1, y0, y1] + rest;
    let p = buf.subrange(5, 11);
    assert(p =~= seq![kind, b, x0, x1, y0, y1]);
    assert(p.skip(1) =~= seq![b, x0, x1, y0, y1]);
}

/// A scroll is ten bytes: its length, type 4, kind 3, then the horizontal and the
/// vertical distance in two's complement, each low byte first.
pub proof fn law_scroll_bytes(dx: i16, dy: i16, rest: Seq<u8>)
    ensures
        ({
            let m = Message::InputEvent(InputEvent::Scroll { dx, dy });
            let ux = if dx < 0 { dx + 65536 } else { dx as int };
            let uy = if dy < 0 { dy + 65536 } else { dy as int };
            let bytes = seq![
                6u8, 0, 0, 0, 4, 3,
                (ux % 256) as u8, (ux / 256) as u8, (uy % 256) as u8, (uy / 256) as u8,
            ];
            &&& wire(m@) == bytes
            &&& parse(bytes + rest) == Ok::<DecodedModel, DecodeError>(
                DecodedModel::Message { message: m@, consumed: 10 },
            )
        }),
{
    let m = Message::InputEvent(InputEvent::Scroll { dx, dy });
    let ux = if dx < 0 { dx + 65536 } else { dx as int };
    let uy = if dy < 0 { dy + 65536 } else { dy as int };
    assert(ux == dx as int % 65536);
    assert(uy == dy as int % 65536);
    assert(wire(m@) =~= seq![
        6u8, 0, 0, 0, 4, 3,
        (ux % 256) as u8, (ux / 256) as u8, (uy % 256) as u8, (uy / 256) as u8,
    ]);
    law_round_trip(m@, rest);
}

/// A key event is its length, type 4, kind 4 for a key going down and 5 for one
/// coming up, the modifiers, how many bytes the key code has, and the key code as
/// UTF-8.
pub proof fn law_key_bytes(code: String, modifiers: u8, rest: Seq<u8>)
    requires
        encode_utf8(code@).len() <= 32,
    ensures
        ({
            let text = encode_utf8(code@);
            let n = text.len() as int;
            let down = Message::InputEvent(InputEvent::KeyDown { code, modifiers });
            let up = Message::InputEvent(InputEvent::KeyUp { code, modifiers });
            let downs = seq![(4 + n) as u8, 0, 0, 0, 4, 4, modifiers, n as u8] + text;
            let ups = seq![(4 + n) as u8, 0, 0, 0, 4, 5, modifiers, n as u8] + text;
            &&& wire(down@) == downs
            &&& wire(up@) == ups
            &&& parse(downs + rest) == Ok::<DecodedModel, DecodeError>(
                DecodedModel::Message { message: down@, consumed: 8 + n },
            )
            &&& parse(ups + rest) == Ok::<DecodedModel, DecodeError>(
                DecodedModel::Message { message: up@, consumed: 8 + n },
            )
        }),
{
    let text = encode_utf8(code@);
    let n = text.len() as int;
    let down = Message::InputEvent(InputEvent::KeyDown { code, modifiers });
    let up = Message::InputEvent(InputEvent::KeyUp { code, modifiers });
    assert(wire(down@) =~= seq![(4 + n) as u8, 0, 0, 0, 4, 4, modifiers, n as u8] + text);
    assert(wire(up@) =~= seq![(4 + n) as u8, 0, 0, 0, 4, 5, modifiers, n as u8] + text);
    law_round_trip(down@, rest);
    law_round_trip(up@, rest);
}

proof fn lemma_eight_bytes(t: u64)
    ensures
        le64(t as int) == seq![
            (t % 256) as u8,
            (t / 256 % 256) as u8,
            (t / 65536 % 256) as u8,
            (t / 16777216 % 256) as u8,
            (t / 4294967296 % 256) as u8,
            (t / 1099511627776 % 256) as u8,
            (t / 281474976710656 % 256) as u8,
            (t / 72057594037927936) as u8,
        ],
{
    let hi = t as int / 4294967296;
    assert(hi / 256 == t as int / 1099511627776);
    assert(hi / 65536 == t as int / 281474976710656);
    assert(hi / 16777216 == t as int / 72057594037927936);
}

/// A frame is its length, type 3, the codec (0 for JPEG, 1 for H.264), four bytes
/// of sequence number and eight of capture time, low byte first, and the encoded
/// picture.
pub proof fn law_frame_bytes(m: Message, rest: Seq<u8>)
    requires
        m is FrameData,
        bytes_of(m->FrameData_0.payload).len() + 14 <= 67108864,
    ensures
        ({
            let f = m->FrameData_0;
            let payload = bytes_of(f.payload);
            let n = (payload.len() + 14) as int;
            let c: u8 = if f.codec == Codec::Jpeg { 0 } else { 1 };
            let s = f.seq;
            let t = f.timestamp_micros;
            let bytes = seq![
                (n % 256) as u8,
                (n / 256 % 256) as u8,
                (n / 65536 % 256) as u8,
                (n / 16777216) as u8,
                3,
                c,
                (s % 256) as u8,
                (s / 256 % 256) as u8,
                (s / 65536 % 256) as u8,
                (s / 16777216) as u8,
                (t % 256) as u8,
                (t / 256 % 256) as u8,
                (t / 65536 % 256) as u8,
                (t / 16777216 % 256) as u8,
                (t / 4294967296 % 256) as u8,
                (t / 1099511627776 % 256) as u8,
                (t / 281474976710656 % 256) as u8,
                (t / 72057594037927936) as u8,
            ] + payload;
            &&& wire(m@) == bytes
            &&& parse(bytes + rest) == Ok::<DecodedModel, DecodeError>(
                DecodedModel::Message { message: m@, consumed: 4 + n },
            )
        }),
{
    let f = m->FrameData_0;
    let payload = bytes_of(f.payload);
    let n = (payload.len() + 14) as int;
    let c: u8 = if f.codec == Codec::Jpeg { 0 } else { 1 };
    let s = f.seq;
    let t = f.timestamp_micros;
    lemma_eight_bytes(t);
    assert(wire(m@) =~= le32(n) + (seq![3u8, c] + le32(s as int) + le64(t as int) + payload));
    assert(wire(m@) =~= seq![
        (n % 256) as u8,
        (n / 256 % 256) as u8,
        (n / 65536 % 256) as u8,
        (n / 16777216) as u8,
        3,
        c,
        (s % 256) as u8,
        (s / 256 % 256) as u8,
        (s / 65536 % 256) as u8,
        (s / 16777216) as u8,
        (t % 256) as u8,
        (t / 256 % 256) as u8,
        (t / 65536 % 256) as u8,
        (t / 16777216 % 256) as u8,
        (t / 4294967296 % 256) as u8,
        (t / 1099511627776 % 256) as u8,
        (t / 281474976710656 % 256) as u8,
        (t / 72057594037927936) as u8,
    ] + payload);
    law_round_trip(m@, rest);
}

/// Clipboard text is its length, type 5, kind 0 and the text as UTF-8; typed text
/// is its length, type 6 and the text as UTF-8.
pub proof fn law_text_bytes(text: String, rest: Seq<u8>)
    ensures
        ({
            let utf8 = encode_utf8(text@);
            let k = (utf8.len() + 2) as int;
            let m = Message::ClipboardData(ClipboardData { text });
            let bytes = seq![
                (k % 256) as u8,
                (k / 256 % 256) as u8,
                (k / 65536 % 256) as u8,
                (k / 16777216) as u8,
                5,
                0,
            ] + utf8;
            utf8.len() <= 262144 ==> {
                &&& wire(m@) == bytes
                &&& parse(bytes + rest) == Ok::<DecodedModel, DecodeError>(
                    DecodedModel::Message { message: m@, consumed: 4 + k },
                )
            }
        }),
        ({
            let utf8 = encode_utf8(text@);
            let k = (utf8.len() + 1) as int;
            let m = Message::TextInput(TextInput { text });
            let bytes = seq![(k % 256) as u8, (k / 256) as u8, 0, 0, 6] + utf8;
            utf8.len() <= 1024 ==> {
                &&& wire(m@) == bytes
                &&& parse(bytes + rest) == Ok::<DecodedModel, DecodeError>(
                    DecodedModel::Message { message: m@, consumed: 4 + k },
                )
            }
        }),
{
    let utf8 = encode_utf8(text@);
    if utf8.len() <= 262144 {
        let k = (utf8.len() + 2) as int;
        let m = Message::ClipboardData(ClipboardData { text });
        assert(wire(m@) =~= seq![
            (k % 256) as u8,
            (k / 256 % 256) as u8,
            (k / 65536 % 256) as u8,
            (k / 16777216) as u8,
            5,
            0,
        ] + utf8);
        law_round_trip(m@, rest);
    }
    if utf8.len() <= 1024 {
        let k = (utf8.len() + 1) as int;
        let m = Message::TextInput(TextInput { text });
        assert(wire(m@) =~= seq![(k % 256) as u8, (k / 256) as u8, 0, 0, 6] + utf8);
        law_round_trip(m@, rest);
    }
}

/// What a sender owes: key codes of at most 32 bytes, clipboards of at most 256
/// KiB, typed text of at most 1 KiB, and nothing of any other message.
pub proof fn law_limits(m: MessageModel)
    ensures
        match m {
            MessageModel::InputEvent(InputModel::KeyDown { code, .. }) => within_limits(m) == (
            encode_utf8(code).len() <= 32),
            MessageModel::InputEvent(InputModel::KeyUp { code, .. }) => within_limits(m) == (
            encode_utf8(code).len() <= 32),
            MessageModel::ClipboardData(text) => within_limits(m) == (encode_utf8(text).len()
                <= 262144),
            MessageModel::TextInput(text) => within_limits(m) == (encode_utf8(text).len() <= 1024),
            _ => within_limits(m),
        },
{
}

/// The length prefix comes first. Fewer than four bytes wait; a length of 0 and
/// one above 64 MiB are refused at once; any other waits until that many bytes
/// have followed it.
pub proof fn law_length_prefix(buf: Seq<u8>)
    ensures
        buf.len() < 4 ==> parse(buf) == Ok::<DecodedModel, DecodeError>(
            DecodedModel::NeedMoreData,
        ),
        buf.len() >= 4 ==> {
            let n = buf[0] + 256 * buf[1] + 65536 * buf[2] + 16777216 * buf[3];
            &&& n > 67108864 ==> parse(buf) == Err::<DecodedModel, DecodeError>(
                DecodeError::TooLong(n as u32),
            )
            &&& n == 0 ==> parse(buf) == Err::<DecodedModel, DecodeError>(
                DecodeError::InvalidValue("zero-length message"),
            )
            &&& 0 < n <= 67108864 ==> (parse(buf) == Ok::<DecodedModel, DecodeError>(
                DecodedModel::NeedMoreData,
            ) <==> buf.len() < 4 + n)
        },
{
}

/// Which complete messages are refused, and as what: the payload's size has to be
/// that of its type, its enum bytes known, its texts bounded and UTF-8. A type
/// outside 1 to 6 is no error: it is skipped, with all its bytes.
pub proof fn law_refusals(
    n0: u8,
    n1: u8,
    n2: u8,
    n3: u8,
    t: u8,
    p: Seq<u8>,
    rest: Seq<u8>,
)
    requires
        p.len() + 1 == n0 + 256 * n1 + 65536 * n2 + 16777216 * n3,
        p.len() + 1 <= 67108864,
    ensures
        ({
            let read = parse(seq![n0, n1, n2, n3, t] + p + rest);
            let len = p.len() as int;
            let size = Err::<DecodedModel, DecodeError>(DecodeError::BadLength(t));
            &&& t == 0 || t > 6 ==> read == Ok::<DecodedModel, DecodeError>(
                DecodedModel::Unknown { msg_type: t, consumed: 5 + len },
            )
            &&& t == 1 && len != 4 ==> read == size
            &&& t == 1 && len == 4 && p[2] > 1 ==> read == Err::<DecodedModel, DecodeError>(
                DecodeError::InvalidValue("role"),
            )
            &&& t == 2 && len != 8 ==> read == size
            &&& t == 3 && len < 13 ==> read == size
            &&& t == 3 && len >= 13 && p[0] > 1 ==> read == Err::<DecodedModel, DecodeError>(
                DecodeError::InvalidValue("codec"),
            )
            &&& t == 4 && len == 0 ==> read == size
            &&& t == 4 && len > 0 && p[0] > 5 ==> read == Err::<DecodedModel, DecodeError>(
                DecodeError::InvalidValue("input event kind"),
            )
            &&& t == 4 && len > 0 && (p[0] == 0 || p[0] == 3) && len != 5 ==> read == size
            &&& t == 4 && len > 0 && (p[0] == 1 || p[0] == 2) && len != 6 ==> read == size
            &&& t == 4 && len > 0 && (p[0] == 4 || p[0] == 5) ==> {
                &&& len < 3 ==> read == size
                &&& len >= 3 && p[2] > 32 ==> read == Err::<DecodedModel, DecodeError>(
                    DecodeError::InvalidValue("key code length"),
                )
                &&& len >= 3 && p[2] <= 32 && len != 3 + p[2] ==> read == size
                &&& len >= 3 && p[2] <= 32 && len == 3 + p[2] && !valid_utf8(p.skip(3)) ==> read
                    == Err::<DecodedModel, DecodeError>(DecodeError::BadKeyCode)
            }
            &&& t == 5 ==> {
                &&& len == 0 ==> read == size
                &&& len > 0 && p[0] != 0 ==> read == Err::<DecodedModel, DecodeError>(
                    DecodeError::InvalidValue("clipboard kind"),
                )
                &&& len > 262145 && p[0] == 0 ==> read == Err::<DecodedModel, DecodeError>(
                    DecodeError::InvalidValue("clipboard too large"),
                )
                &&& 0 < len <= 262145 && p[0] == 0 && !valid_utf8(p.skip(1)) ==> read == Err::<
                    DecodedModel,
                    DecodeError,
                >(DecodeError::InvalidValue("clipboard not UTF-8"))
            }
            &&& t == 6 ==> {
                &&& len > 1024 ==> read == Err::<DecodedModel, DecodeError>(
                    DecodeError::InvalidValue("text input too large"),
                )
                &&& len <= 1024 && !valid_utf8(p) ==> read == Err::<DecodedModel, DecodeError>(
                    DecodeError::InvalidValue("text input not UTF-8"),
                )
            }
        }),
{
    let buf = seq![n0, n1, n2, n3, t] + p + rest;
    assert(buf[0] == n0 && buf[1] == n1 && buf[2] == n2 && buf[3] == n3 && buf[4] == t);
    assert(buf.subrange(5, 5 + p.len() as int) =~= p);
    if p.len() > 0 {
        let f = p.skip(1);
        assert(f.len() == p.len() - 1);
        if p.len() >= 3 {
            assert(f[1] == p[2]);
            assert(f.skip(2) =~= p.skip(3));
        }
    }
}

/// The texts of complete messages are read as the UTF-8 that they are: the key code
/// behind its length, the clipboard behind its kind, typed text from the start.
pub proof fn law_texts_read(
    n0: u8,
    n1: u8,
    n2: u8,
    n3: u8,
    t: u8,
    p: Seq<u8>,
    rest: Seq<u8>,
)
    requires
        p.len() + 1 == n0 + 256 * n1 + 65536 * n2 + 16777216 * n3,
        p.len() + 1 <= 67108864,
    ensures
        ({
            let read = parse(seq![n0, n1, n2, n3, t] + p + rest);
            let len = p.len() as int;
            &&& t == 4 && 3 <= len <= 35 && p[0] == 4 && p[2] == len - 3 && valid_utf8(p.skip(3))
                ==> read == Ok::<DecodedModel, DecodeError>(
                DecodedModel::Message {
                    message: MessageModel::InputEvent(
                        InputModel::KeyDown { code: decode_utf8(p.skip(3)), modifiers: p[1] },
                    ),
                    consumed: 5 + len,
                },
            )
            &&& t == 4 && 3 <= len <= 35 && p[0] == 5 && p[2] == len - 3 && valid_utf8(p.skip(3))
                ==> read == Ok::<DecodedModel, DecodeError>(
                DecodedModel::Message {
                    message: MessageModel::InputEvent(
                        InputModel::KeyUp { code: decode_utf8(p.skip(3)), modifiers: p[1] },
                    ),
                    consumed: 5 + len,
                },
            )
            &&& t == 5 && 1 <= len <= 262145 && p[0] == 0 && valid_utf8(p.skip(1)) ==> read == Ok::<
                DecodedModel,
                DecodeError,
            >(
                DecodedModel::Message {
                    message: MessageModel::ClipboardData(decode_utf8(p.skip(1))),
                    consumed: 5 + len,
                },
            )
            &&& t == 6 && len <= 1024 && valid_utf8(p) ==> read == Ok::<DecodedModel, DecodeError>(
                DecodedModel::Message {
                    message: MessageModel::TextInput(decode_utf8(p)),
                    consumed: 5 + len,
                },
            )
        }),
{
    let buf = seq![n0, n1, n2, n3, t] + p + rest;
    assert(buf[0] == n0 && buf[1] == n1 && buf[2] == n2 && buf[3] == n3 && buf[4] == t);
    assert(buf.subrange(5, 5 + p.len() as int) =~= p);
    if p.len() >= 3 {
        let f = p.skip(1);
        assert(f[0] == p[1] && f[1] == p[2]);
        assert(f.skip(2) =~= p.skip(3));
    }
}

/// The refusals in words.
pub proof fn law_refusals_in_words(n: u32, t: u8, what: &'static str)
    ensures
        DecodeError::Truncated.text() == "message truncated"@,
        DecodeError::TooLong(n).text() == "declared length "@ + decimal(n as nat)
            + " exceeds maximum "@ + decimal(67108864),
        DecodeError::BadLength(t).text() == "declared length does not match payload for message type 0x"@
            + hex_text(seq![t]),
        DecodeError::InvalidValue(what).text() == "invalid value for "@ + what@,
        DecodeError::BadKeyCode.text() == "key code is not valid UTF-8"@,
{
}

/// Messages and events stand for their own fields.
pub proof fn law_messages_hold_their_fields(m: Message, ev: InputEvent)
    ensures
        match m {
            Message::Hello(h) => m@ == MessageModel::Hello(h),
            Message::Resolution(r) => m@ == MessageModel::Resolution(r),
            Message::FrameData(f) => m@ == (MessageModel::FrameData {
                codec: f.codec,
                seq: f.seq,
                timestamp_micros: f.timestamp_micros,
                payload: bytes_of(f.payload),
            }),
            Message::InputEvent(e) => m@ == MessageModel::InputEvent(e@),
            Message::ClipboardData(c) => m@ == MessageModel::ClipboardData(c.text@),
            Message::TextInput(c) => m@ == MessageModel::TextInput(c.text@),
        },
        match ev {
            InputEvent::MouseMove { x, y } => ev@ == (InputModel::MouseMove { x, y }),
            InputEvent::MouseDown { button, x, y } => ev@ == (InputModel::MouseDown {
                button,
                x,
                y,
            }),
            InputEvent::MouseUp { button, x, y } => ev@ == (InputModel::MouseUp { button, x, y }),
            InputEvent::Scroll { dx, dy } => ev@ == (InputModel::Scroll { dx, dy }),
            InputEvent::KeyDown { code, modifiers } => ev@ == (InputModel::KeyDown {
                code: code@,
                modifiers,
            }),
            InputEvent::KeyUp { code, modifiers } => ev@ == (InputModel::KeyUp {
                code: code@,
                modifiers,
            }),
        },
{
}

} // verus!
