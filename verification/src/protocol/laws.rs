//! What encoding and decoding promise together.

use vstd::prelude::*;
use vstd::utf8::{decode_utf8, encode_utf8, valid_utf8};

use super::{
    body, input_bytes, known_type, parse, parse_input_event, parse_key, parse_payload, wire,
    within_limits, DecodeError, DecodedModel, InputModel, MessageModel, MAX_MESSAGE_LEN,
};
use crate::le::{
    le16, le32, le64, lemma_le16_num16, lemma_le32_num32, lemma_le64_num64, lemma_num16_le16,
    lemma_num32_le32, lemma_num64_le64, num16, num32, signed16,
};

verus! {

proof fn lemma_text_round_trip(text: Seq<char>)
    ensures
        valid_utf8(encode_utf8(text)),
        decode_utf8(encode_utf8(text)) == text,
{
    broadcast use vstd::utf8::encode_utf8_valid_utf8, vstd::utf8::encode_utf8_decode_utf8;

}

proof fn lemma_bytes_round_trip(b: Seq<u8>)
    requires
        valid_utf8(b),
    ensures
        encode_utf8(decode_utf8(b)) == b,
{
    broadcast use vstd::utf8::decode_utf8_encode_utf8;

}

proof fn lemma_input_round_trip(ev: InputModel, t: u8)
    requires
        within_limits(MessageModel::InputEvent(ev)),
    ensures
        parse_input_event(input_bytes(ev), t) == Ok::<InputModel, DecodeError>(ev),
{
    let p = input_bytes(ev);
    let fields = p.skip(1);
    let none = Seq::<u8>::empty();
    match ev {
        InputModel::MouseMove { x, y } => {
            assert(fields =~= none + le16(x as int) + le16(y as int));
            lemma_num16_le16(x as int, none, le16(y as int));
            assert(fields =~= le16(x as int) + le16(y as int) + none);
            lemma_num16_le16(y as int, le16(x as int), none);
        },
        InputModel::MouseDown { button, x, y } => {
            let b = seq![button.code()];
            assert(fields =~= b + le16(x as int) + le16(y as int));
            lemma_num16_le16(x as int, b, le16(y as int));
            assert(fields =~= (b + le16(x as int)) + le16(y as int) + none);
            lemma_num16_le16(y as int, b + le16(x as int), none);
        },
        InputModel::MouseUp { button, x, y } => {
            let b = seq![button.code()];
            assert(fields =~= b + le16(x as int) + le16(y as int));
            lemma_num16_le16(x as int, b, le16(y as int));
            assert(fields =~= (b + le16(x as int)) + le16(y as int) + none);
            lemma_num16_le16(y as int, b + le16(x as int), none);
        },
        InputModel::Scroll { dx, dy } => {
            let ux = dx as int % 0x1_0000;
            let uy = dy as int % 0x1_0000;
            assert(fields =~= none + le16(ux) + le16(uy));
            lemma_num16_le16(ux, none, le16(uy));
            assert(fields =~= le16(ux) + le16(uy) + none);
            lemma_num16_le16(uy, le16(ux), none);
            assert(signed16(ux) == dx);
            assert(signed16(uy) == dy);
        },
        InputModel::KeyDown { code, .. } => {
            assert(fields.skip(2) =~= encode_utf8(code));
            lemma_text_round_trip(code);
        },
        InputModel::KeyUp { code, .. } => {
            assert(fields.skip(2) =~= encode_utf8(code));
            lemma_text_round_trip(code);
        },
    }
}

proof fn lemma_payload_round_trip(m: MessageModel)
    requires
        within_limits(m),
    ensures
        body(m).len() >= 1,
        known_type(body(m)[0]),
        parse_payload(body(m)[0], body(m).skip(1)) == Ok::<MessageModel, DecodeError>(m),
{
    let p = body(m).skip(1);
    let none = Seq::<u8>::empty();
    match m {
        MessageModel::Hello(h) => {
            let tail = seq![h.role.code(), h.capabilities];
            assert(p =~= none + le16(h.version as int) + tail);
            lemma_num16_le16(h.version as int, none, tail);
        },
        MessageModel::Resolution(r) => {
            assert(p =~= none + le32(r.width as int) + le32(r.height as int));
            lemma_num32_le32(r.width as int, none, le32(r.height as int));
            assert(p =~= le32(r.width as int) + le32(r.height as int) + none);
            lemma_num32_le32(r.height as int, le32(r.width as int), none);
        },
        MessageModel::FrameData { codec, seq, timestamp_micros, payload } => {
            let c = seq![codec.code()];
            let s = le32(seq as int);
            let t = le64(timestamp_micros as int);
            assert(p =~= c + s + (t + payload));
            lemma_num32_le32(seq as int, c, t + payload);
            assert(p =~= (c + s) + t + payload);
            lemma_num64_le64(timestamp_micros as int, c + s, payload);
            assert(p.skip(13) =~= payload);
        },
        MessageModel::InputEvent(ev) => {
            assert(p =~= input_bytes(ev));
            lemma_input_round_trip(ev, super::MSG_INPUT_EVENT);
        },
        MessageModel::ClipboardData(text) => {
            assert(p.skip(1) =~= encode_utf8(text));
            lemma_text_round_trip(text);
        },
        MessageModel::TextInput(text) => {
            assert(p =~= encode_utf8(text));
            lemma_text_round_trip(text);
        },
    }
}

/// Decoding what was encoded gives the message back and consumes exactly its
/// encoding, whatever follows it in the buffer.
pub proof fn law_round_trip(m: MessageModel, rest: Seq<u8>)
    requires
        within_limits(m),
        body(m).len() <= MAX_MESSAGE_LEN,
    ensures
        parse(wire(m) + rest) == Ok::<DecodedModel, DecodeError>(
            DecodedModel::Message { message: m, consumed: wire(m).len() as int },
        ),
{
    let buf = wire(m) + rest;
    let none = Seq::<u8>::empty();
    let len = body(m).len() as int;
    lemma_payload_round_trip(m);
    assert(buf =~= none + le32(len) + (body(m) + rest));
    lemma_num32_le32(len, none, body(m) + rest);
    assert(buf[4] == body(m)[0]);
    assert(buf.subrange(5, 4 + len) =~= body(m).skip(1));
}

/// An encoding cut short, at any point, asks for more data: it is never taken
/// for a message or for garbage.
pub proof fn law_truncation_needs_more_data(m: MessageModel, cut: int)
    requires
        within_limits(m),
        body(m).len() <= MAX_MESSAGE_LEN,
        0 <= cut < wire(m).len(),
    ensures
        parse(wire(m).take(cut)) == Ok::<DecodedModel, DecodeError>(DecodedModel::NeedMoreData),
{
    lemma_payload_round_trip(m);
    let buf = wire(m).take(cut);
    let none = Seq::<u8>::empty();
    let len = body(m).len() as int;
    if cut >= 4 {
        assert(buf =~= none + le32(len) + body(m).take(cut - 4));
        lemma_num32_le32(len, none, body(m).take(cut - 4));
    }
}

/// A complete message of an unknown type is reported with the number of bytes
/// to skip, whatever its payload and whatever follows.
pub proof fn law_unknown_is_skippable(t: u8, payload: Seq<u8>, rest: Seq<u8>)
    requires
        !known_type(t),
        payload.len() + 1 <= MAX_MESSAGE_LEN,
    ensures
        parse(le32(payload.len() as int + 1) + seq![t] + payload + rest) == Ok::<
            DecodedModel,
            DecodeError,
        >(DecodedModel::Unknown { msg_type: t, consumed: 5 + payload.len() as int }),
{
    let none = Seq::<u8>::empty();
    let n = payload.len() as int + 1;
    let buf = le32(n) + seq![t] + payload + rest;
    assert(buf =~= none + le32(n) + (seq![t] + payload + rest));
    lemma_num32_le32(n, none, seq![t] + payload + rest);
}

/// What is decoded depends on the consumed bytes alone: they lie in the buffer,
/// and anything may follow them.
pub proof fn law_self_delimiting(buf: Seq<u8>, rest: Seq<u8>)
    ensures
        match parse(buf) {
            Ok(DecodedModel::Message { consumed, .. }) => {
                &&& 5 <= consumed <= buf.len()
                &&& parse(buf.take(consumed) + rest) == parse(buf)
            },
            Ok(DecodedModel::Unknown { consumed, .. }) => {
                &&& 5 <= consumed <= buf.len()
                &&& parse(buf.take(consumed) + rest) == parse(buf)
            },
            _ => true,
        },
{
    if buf.len() >= 4 {
        let n = num32(buf, 0);
        lemma_le32_num32(buf, 0);
        if 0 < n <= MAX_MESSAGE_LEN && 4 + n <= buf.len() {
            let b = buf.take(4 + n) + rest;
            assert(num32(b, 0) == n);
            assert(b[4] == buf[4]);
            assert(b.subrange(5, 4 + n) =~= buf.subrange(5, 4 + n));
        }
    }
}

proof fn lemma_key_canonical(p: Seq<u8>, t: u8)
    requires
        parse_key(p, t) is Ok,
    ensures
        ({
            let (code, modifiers) = parse_key(p, t)->Ok_0;
            &&& encode_utf8(code).len() <= super::MAX_KEY_CODE_LEN
            &&& p == seq![modifiers, encode_utf8(code).len() as u8] + encode_utf8(code)
        }),
{
    lemma_bytes_round_trip(p.skip(2));
    let (code, modifiers) = parse_key(p, t)->Ok_0;
    assert(p =~= seq![modifiers, encode_utf8(code).len() as u8] + encode_utf8(code));
}

proof fn lemma_input_canonical(p: Seq<u8>, t: u8)
    requires
        parse_input_event(p, t) is Ok,
    ensures
        within_limits(MessageModel::InputEvent(parse_input_event(p, t)->Ok_0)),
        input_bytes(parse_input_event(p, t)->Ok_0) == p,
{
    let ev = parse_input_event(p, t)->Ok_0;
    let f = p.skip(1);
    match ev {
        InputModel::MouseMove { x, y } => {
            lemma_le16_num16(f, 0);
            lemma_le16_num16(f, 2);
            assert(p =~= seq![p[0]] + f.subrange(0, 2) + f.subrange(2, 4));
        },
        InputModel::MouseDown { button, x, y } => {
            lemma_le16_num16(f, 1);
            lemma_le16_num16(f, 3);
            assert(p =~= seq![p[0], f[0]] + f.subrange(1, 3) + f.subrange(3, 5));
        },
        InputModel::MouseUp { button, x, y } => {
            lemma_le16_num16(f, 1);
            lemma_le16_num16(f, 3);
            assert(p =~= seq![p[0], f[0]] + f.subrange(1, 3) + f.subrange(3, 5));
        },
        InputModel::Scroll { dx, dy } => {
            lemma_le16_num16(f, 0);
            lemma_le16_num16(f, 2);
            assert(dx as int % 0x1_0000 == num16(f, 0));
            assert(dy as int % 0x1_0000 == num16(f, 2));
            assert(p =~= seq![p[0]] + f.subrange(0, 2) + f.subrange(2, 4));
        },
        InputModel::KeyDown { code, modifiers } => {
            lemma_key_canonical(f, t);
            let text = encode_utf8(code);
            assert(f == seq![modifiers, text.len() as u8] + text);
            assert(p =~= seq![p[0]] + f);
            assert(seq![p[0]] + f =~= seq![p[0], modifiers, text.len() as u8] + text);
        },
        InputModel::KeyUp { code, modifiers } => {
            lemma_key_canonical(f, t);
            let text = encode_utf8(code);
            assert(f == seq![modifiers, text.len() as u8] + text);
            assert(p =~= seq![p[0]] + f);
            assert(seq![p[0]] + f =~= seq![p[0], modifiers, text.len() as u8] + text);
        },
    }
}

proof fn lemma_payload_canonical(t: u8, p: Seq<u8>)
    requires
        known_type(t),
        parse_payload(t, p) is Ok,
    ensures
        within_limits(parse_payload(t, p)->Ok_0),
        body(parse_payload(t, p)->Ok_0) == seq![t] + p,
{
    let m = parse_payload(t, p)->Ok_0;
    match m {
        MessageModel::Hello(h) => {
            lemma_le16_num16(p, 0);
            assert(seq![t] + p =~= body(m));
        },
        MessageModel::Resolution(r) => {
            lemma_le32_num32(p, 0);
            lemma_le32_num32(p, 4);
            assert(seq![t] + p =~= body(m));
        },
        MessageModel::FrameData { codec, seq, timestamp_micros, payload } => {
            lemma_le32_num32(p, 1);
            lemma_le64_num64(p, 5);
            assert(seq![t] + p =~= seq![t, p[0]] + p.subrange(1, 5) + p.subrange(5, 13) + p.skip(
                13,
            ));
        },
        MessageModel::InputEvent(ev) => {
            lemma_input_canonical(p, t);
        },
        MessageModel::ClipboardData(text) => {
            lemma_bytes_round_trip(p.skip(1));
            assert(seq![t] + p =~= body(m));
        },
        MessageModel::TextInput(text) => {
            lemma_bytes_round_trip(p);
        },
    }
}

/// Every message has one encoding: whatever decodes to a message is, up to the
/// consumed bytes, the encoding of that message, and keeps the limits that a
/// sender owes.
pub proof fn law_canonical(buf: Seq<u8>)
    ensures
        parse(buf) matches Ok(DecodedModel::Message { message, consumed }) ==> {
            &&& within_limits(message)
            &&& body(message).len() <= MAX_MESSAGE_LEN
            &&& wire(message) == buf.take(consumed)
        },
{
    if let Ok(DecodedModel::Message { message, consumed }) = parse(buf) {
        let p = buf.subrange(5, consumed);
        lemma_le32_num32(buf, 0);
        lemma_payload_canonical(buf[4], p);
        assert(wire(message) =~= buf.take(consumed));
    }
}

/// Different messages have different encodings.
pub proof fn law_wire_injective(a: MessageModel, b: MessageModel)
    requires
        within_limits(a),
        within_limits(b),
        body(a).len() <= MAX_MESSAGE_LEN,
        body(b).len() <= MAX_MESSAGE_LEN,
        wire(a) == wire(b),
    ensures
        a == b,
{
    law_round_trip(a, Seq::empty());
    law_round_trip(b, Seq::empty());
}

/// The encodings of messages sent one after another on a byte stream.
pub open spec fn stream(ms: Seq<MessageModel>) -> Seq<u8>
    decreases ms.len(),
{
    if ms.len() == 0 {
        Seq::empty()
    } else {
        wire(ms[0]) + stream(ms.skip(1))
    }
}

/// On a byte stream the receiver takes the messages off one by one: the first
/// is decoded, and what lies behind the consumed bytes is the stream of the
/// others.
pub proof fn law_stream(ms: Seq<MessageModel>)
    requires
        ms.len() > 0,
        forall|i: int|
            0 <= i < ms.len() ==> within_limits(#[trigger] ms[i]) && body(ms[i]).len()
                <= MAX_MESSAGE_LEN,
    ensures
        parse(stream(ms)) == Ok::<DecodedModel, DecodeError>(
            DecodedModel::Message { message: ms[0], consumed: wire(ms[0]).len() as int },
        ),
        stream(ms).skip(wire(ms[0]).len() as int) == stream(ms.skip(1)),
{
    law_round_trip(ms[0], stream(ms.skip(1)));
    assert(stream(ms).skip(wire(ms[0]).len() as int) =~= stream(ms.skip(1)));
}

} // verus!
