//! What the host makes of the signal server's messages and of descriptions, and what it
//! puts on the channels.

use bytes::Bytes;
use vstd::prelude::*;
use vstd::utf8::encode_utf8;

use super::{
    answered_client, are_chunks, channel_of, connection_binding, fingerprint, fingerprint_in,
    first_line, ice_to_use, line_end, on_signal, registration_for, right_bulk_step,
    right_media_step, started_client, trim_end, trim_start, Backoff, Channel, MediaStep,
    RtcIceModel, SignalActionModel, SignalClientModel,
};
use crate::auth::binding_for;
use crate::buffers::bytes_of;
use crate::capture::EncodedFrame;
use crate::chunks::{chunk, chunk_count};
use crate::crypto::{ed25519_public, ed25519_signature};
use crate::protocol::{wire, ClipboardData, FrameData, Message, MessageModel};
use crate::session::Phase;
use crate::signal::identity::payload;
use crate::signal::protocol::{
    Caps, ClientModel, ErrorCode, IceModel, ServerMessage, ServerModel,
};
use crate::text::{begins_with, hex_text, white_space};

verus! {

/// The ICE servers of a peer connection are those that the signal server advertised, one
/// for one with their URLs, usernames and credentials, a missing one as the empty text;
/// where it advertised none, one entry with the host's own STUN URLs.
pub proof fn law_ice_servers_are_taken_over(
    servers: Seq<IceModel>,
    stun: Seq<Seq<char>>,
    i: int,
)
    ensures
        servers.len() == 0 ==> ice_to_use(servers, stun) == seq![
            RtcIceModel { urls: stun, username: Seq::empty(), credential: Seq::empty() },
        ],
        servers.len() > 0 ==> ice_to_use(servers, stun).len() == servers.len(),
        0 <= i < servers.len() ==> {
            let used = ice_to_use(servers, stun)[i];
            &&& used.urls == servers[i].urls
            &&& match servers[i].username {
                Some(username) => used.username == username,
                None => used.username == Seq::<char>::empty(),
            }
            &&& match servers[i].credential {
                Some(credential) => used.credential == credential,
                None => used.credential == Seq::<char>::empty(),
            }
        },
{
}

/// A host registers under its own id and name, able to host and to control, with the
/// shared secret, its public key, and its signature of the context
/// `tether-signal-register-v1`, the nonce and the id, a zero byte between them.
pub proof fn law_hosts_sign_their_registration(
    device_id: Seq<char>,
    name: Seq<char>,
    secret: Seq<char>,
    nonce: Seq<char>,
    seed: Seq<u8>,
)
    ensures
        registration_for(device_id, name, secret, nonce, seed) == (ClientModel::Register {
            device_id,
            name,
            caps: Caps { can_host: true, can_control: true },
            auth: secret,
            pubkey: Some(hex_text(ed25519_public(seed))),
            sig: Some(
                hex_text(
                    ed25519_signature(
                        seed,
                        encode_utf8("tether-signal-register-v1"@) + seq![0u8] + encode_utf8(nonce)
                            + seq![0u8] + encode_utf8(device_id),
                    ),
                ),
            ),
        }),
{
    assert(payload(nonce, device_id) =~= encode_utf8("tether-signal-register-v1"@) + seq![0u8]
        + encode_utf8(nonce) + seq![0u8] + encode_utf8(device_id));
}

/// What the host does about each message of the signal server, and what it keeps of it.
pub proof fn law_signal_messages_are_settled(c: SignalClientModel, m: ServerMessage)
    ensures
        ({
            let (after, action) = on_signal(c, m@);
            match m {
                ServerMessage::Challenge { nonce } => after == c && action == (
                SignalActionModel::Register { nonce: nonce@ }),
                ServerMessage::Registered { .. } => {
                    &&& action == SignalActionModel::Nothing
                    &&& after.active == c.active && after.stun == c.stun
                    &&& m@ matches ServerModel::Registered { ice_servers } && after.ice
                        == ice_to_use(ice_servers, c.stun)
                },
                ServerMessage::Peers { .. } => after == c && action == SignalActionModel::Nothing,
                ServerMessage::Answer { .. } => after == c && action == SignalActionModel::Nothing,
                ServerMessage::Offer { from, sdp } => {
                    &&& action == (SignalActionModel::AnswerOffer {
                        from: from@,
                        sdp: sdp@,
                        ice: c.ice,
                        close_active: c.active is Some,
                    })
                    &&& after.active is None
                    &&& after.ice == c.ice && after.stun == c.stun
                },
                ServerMessage::Ice { from, candidate } => after == c && action == if c.active
                    == Some(from@) {
                    SignalActionModel::AddCandidate { candidate: candidate@ }
                } else {
                    SignalActionModel::Nothing
                },
                ServerMessage::Error { code, message } => after == c && action == if code
                    == ErrorCode::Replaced {
                    SignalActionModel::Fail {
                        reason: "another tetherd registered this device id: "@ + message@,
                    }
                } else {
                    SignalActionModel::Report { code, message: message@ }
                },
            }
        }),
{
}

/// A host that has just connected has no session and uses its own STUN servers. Once it
/// has answered an offer, that controller's candidates reach the session, and the next
/// offer closes it.
pub proof fn law_answering_makes_the_session(
    stun: Seq<Seq<char>>,
    c: SignalClientModel,
    from: Seq<char>,
    candidate: Seq<char>,
    other: Seq<char>,
    sdp: Seq<char>,
)
    ensures
        started_client(stun).active is None,
        started_client(stun).stun == stun,
        started_client(stun).ice == seq![
            RtcIceModel { urls: stun, username: Seq::empty(), credential: Seq::empty() },
        ],
        answered_client(c, from).stun == c.stun,
        answered_client(c, from).ice == c.ice,
        on_signal(answered_client(c, from), ServerModel::Ice { from, candidate }).1 == (
        SignalActionModel::AddCandidate { candidate }),
        on_signal(answered_client(c, from), ServerModel::Offer { from: other, sdp }).1 == (
        SignalActionModel::AnswerOffer { from: other, sdp, ice: c.ice, close_active: true }),
        on_signal(started_client(stun), ServerModel::Offer { from: other, sdp }).1 matches
            SignalActionModel::AnswerOffer { close_active, .. } && !close_active,
{
}

/// The three labels, and no other text, name the channels.
pub proof fn law_labels_name_channels(label: Seq<char>)
    ensures
        channel_of(label) == Channel::Ctl <==> label == "tether-ctl"@,
        channel_of(label) == Channel::Media <==> label == "tether-media"@,
        channel_of(label) == Channel::Bulk <==> label == "tether-bulk"@,
        channel_of(label) == Channel::Other <==> label != "tether-ctl"@ && label
            != "tether-media"@ && label != "tether-bulk"@,
{
    reveal_strlit("tether-ctl");
    reveal_strlit("tether-media");
    reveal_strlit("tether-bulk");
    assert("tether-ctl"@.len() == 10 && "tether-media"@.len() == 12 && "tether-bulk"@.len() == 11);
}

/// A frame goes to a controller that is in unless the send buffer holds more than a
/// million bytes, and then all of it: the chunks of its own message, in order, under its
/// own number. A deeper buffer drops it; without a frame there is nothing to do.
pub proof fn law_frames_go_out_in_chunks(
    frame: EncodedFrame,
    buffered: usize,
    step: MediaStep,
    i: int,
)
    requires
        right_media_step(Phase::Streaming, Some(frame), buffered, step),
    ensures
        buffered > 1_000_000 ==> step is Drop,
        buffered <= 1_000_000 ==> (step matches MediaStep::Send(chunks) && {
            let m = Message::FrameData(
                FrameData {
                    codec: frame.codec,
                    seq: frame.seq,
                    timestamp_micros: frame.timestamp_micros,
                    payload: frame.payload,
                },
            );
            &&& chunks@.len() == chunk_count(wire(m@).len())
            &&& 0 <= i < chunks@.len() ==> bytes_of(chunks@[i]) == chunk(frame.seq, wire(m@), i)
        }),
        right_media_step(Phase::Streaming, None, buffered, step) <==> step is Wait,
{
}

/// A clipboard goes onto the bulk channel of a controller that is in, under the number
/// after the last one, 0 after the largest: the chunks of its message, in order. Before
/// that nothing goes out and no number is used up.
pub proof fn law_clipboards_go_out_in_chunks(
    phase: Phase,
    seq: u32,
    text: String,
    after: u32,
    chunks: Seq<Bytes>,
    i: int,
)
    requires
        right_bulk_step(phase, seq, text@, after, chunks),
    ensures
        phase != Phase::Streaming ==> after == seq && chunks.len() == 0,
        phase == Phase::Streaming ==> {
            let m = Message::ClipboardData(ClipboardData { text });
            &&& seq < 0xffff_ffff ==> after == seq + 1
            &&& seq == 0xffff_ffff ==> after == 0
            &&& chunks.len() == chunk_count(wire(m@).len())
            &&& 0 <= i < chunks.len() ==> bytes_of(chunks[i]) == chunk(after, wire(m@), i)
        },
{
}

/// The waits between connections: one second after a session of more than ten seconds,
/// else the wait that is due; the next one is twice as long, thirty seconds at most.
pub proof fn law_waits_double(b: Backoff, lasted_nanos: u128)
    requires
        1 <= b.secs <= 30,
    ensures
        ({
            let (after, waited) = b.waited(lasted_nanos);
            &&& lasted_nanos > 10_000_000_000 ==> waited == 1
            &&& lasted_nanos <= 10_000_000_000 ==> waited == b.secs
            &&& waited <= 15 ==> after.secs == 2 * waited
            &&& waited > 15 ==> after.secs == 30
        }),
{
}

proof fn lemma_trim_end_is_a_front(s: Seq<char>)
    ensures
        trim_end(s).len() <= s.len(),
        trim_end(s) == s.take(trim_end(s).len() as int),
    decreases s.len(),
{
    if s.len() > 0 && white_space(s.last()) {
        lemma_trim_end_is_a_front(s.drop_last());
        assert(s.drop_last().take(trim_end(s).len() as int) =~= s.take(trim_end(s).len() as int));
    } else {
        assert(s.take(s.len() as int) =~= s);
    }
}

proof fn lemma_line_end(line: Seq<char>, rest: Seq<char>)
    requires
        forall|i: int| 0 <= i < line.len() ==> line[i] != '\n',
    ensures
        line_end(line + seq!['\n'] + rest) == line.len(),
        line_end(line) == line.len(),
    decreases line.len(),
{
    let s = line + seq!['\n'] + rest;
    if line.len() > 0 {
        lemma_line_end(line.skip(1), rest);
        assert(s.skip(1) =~= line.skip(1) + seq!['\n'] + rest);
        assert(s[0] == line[0]);
    } else {
        assert(s[0] == '\n');
    }
}

proof fn lemma_trimmed(lead: Seq<char>, s: Seq<char>, trail: Seq<char>)
    requires
        forall|i: int| 0 <= i < lead.len() ==> white_space(#[trigger] lead[i]),
        forall|i: int| 0 <= i < trail.len() ==> white_space(#[trigger] trail[i]),
        s.len() > 0,
        !white_space(s[0]),
        !white_space(s.last()),
    ensures
        trim_start(lead + s + trail) == s + trail,
        trim_end(s + trail) == s,
    decreases lead.len() + trail.len(),
{
    let all = lead + s + trail;
    if lead.len() > 0 {
        assert(all[0] == lead[0]);
        assert(all.skip(1) =~= lead.skip(1) + s + trail);
        lemma_trimmed(lead.skip(1), s, trail);
    } else {
        assert(all =~= s + trail);
        assert(all[0] == s[0]);
        if trail.len() > 0 {
            assert(trail[trail.len() - 1] == (s + trail).last());
            assert((s + trail).drop_last() =~= s + trail.drop_last());
            lemma_trimmed(lead, s, trail.drop_last());
        } else {
            assert(s + trail =~= s);
        }
    }
}

/// A fingerprint line gives its value: what follows `a=fingerprint:`, without white space
/// at either end of the line, the carriage return before a line feed included, whether a
/// line feed ends it or the description does. What comes after the line does not matter.
pub proof fn law_fingerprint_lines_give_their_value(
    lead: Seq<char>,
    value: Seq<char>,
    trail: Seq<char>,
    rest: Seq<char>,
)
    requires
        forall|i: int| 0 <= i < lead.len() ==> white_space(#[trigger] lead[i]) && lead[i] != '\n',
        forall|i: int| 0 <= i < value.len() ==> #[trigger] value[i] != '\n',
        forall|i: int|
            0 <= i < trail.len() ==> white_space(#[trigger] trail[i]) && trail[i] != '\n',
        value.len() > 0 ==> !white_space(value.last()),
    ensures
        fingerprint(lead + "a=fingerprint:"@ + value + trail + seq!['\n'] + rest) == Some(value),
        fingerprint(lead + "a=fingerprint:"@ + value + trail) == Some(value),
{
    reveal_strlit("a=fingerprint:");
    let p = "a=fingerprint:"@;
    let core = p + value;
    assert(p[0] == 'a' && p[13] == ':');
    assert(core[0] == 'a');
    assert(!white_space(core.last())) by {
        if value.len() == 0 {
            assert(core =~= p);
        } else {
            assert(core.last() == value.last());
        }
    }
    assert(core.take(14) =~= p);
    assert(core.skip(14) =~= value);
    let line = lead + core + trail;
    assert(lead + p + value + trail =~= line);
    assert(lead + p + value + trail + seq!['\n'] + rest =~= line + seq!['\n'] + rest);
    assert forall|i: int| 0 <= i < line.len() implies line[i] != '\n' by {
        let k = i - lead.len();
        if k < 0 {
            assert(line[i] == lead[i]);
        } else if k < 14 {
            assert(line[i] == p[k]);
        } else if k < core.len() {
            assert(line[i] == value[k - 14]);
        } else {
            assert(line[i] == trail[k - core.len()]);
        }
    }
    lemma_line_end(line, rest);
    lemma_trimmed(lead, core, trail);
    let s = line + seq!['\n'] + rest;
    assert(s.take(line.len() as int) =~= line);
    if s[line.len() - 1] == '\r' {
        assert(s[line.len() - 1] == line.last());
        if trail.len() == 0 {
            assert(line.last() == core.last());
        }
        let shorter = trail.drop_last();
        lemma_trimmed(lead, core, shorter);
        assert(s.take(line.len() - 1) =~= lead + core + shorter);
    }
    assert(fingerprint_in(first_line(s)) == Some(value));
    assert(line.take(line.len() as int) =~= line);
    assert(first_line(line) == line);
}

/// Any other line is passed over: what a description gives is what the lines after it
/// give. The first fingerprint line thus counts, and an empty description gives nothing.
pub proof fn law_other_lines_are_passed_over(lead: Seq<char>, core: Seq<char>, rest: Seq<char>)
    requires
        forall|i: int| 0 <= i < lead.len() ==> white_space(#[trigger] lead[i]) && lead[i] != '\n',
        forall|i: int| 0 <= i < core.len() ==> #[trigger] core[i] != '\n',
        core.len() > 0 ==> !white_space(core[0]),
        !(core.len() >= 14 && core.take(14) == "a=fingerprint:"@),
    ensures
        fingerprint(lead + core + seq!['\n'] + rest) == fingerprint(rest),
        fingerprint(lead + core) is None,
        fingerprint(Seq::empty()) is None,
{
    let line = lead + core;
    let s = line + seq!['\n'] + rest;
    assert forall|i: int| 0 <= i < line.len() implies line[i] != '\n' by {
        if i < lead.len() {
            assert(line[i] == lead[i]);
        } else {
            assert(line[i] == core[i - lead.len()]);
        }
    }
    lemma_line_end(line, rest);
    assert(s.take(line.len() as int) =~= line);
    lemma_not_a_fingerprint(lead, core);
    if line.len() > 0 && s[line.len() - 1] == '\r' {
        if core.len() > 0 {
            let shorter = core.drop_last();
            assert(shorter.len() >= 14 ==> shorter.take(14) =~= core.take(14));
            lemma_not_a_fingerprint(lead, shorter);
            assert(s.take(line.len() - 1) =~= lead + shorter);
        } else {
            lemma_not_a_fingerprint(lead.drop_last(), core);
            assert(s.take(line.len() - 1) =~= lead.drop_last() + core);
        }
    }
    assert(fingerprint_in(first_line(s)) is None);
    assert(s.skip(line.len() as int + 1) =~= rest);
    assert(line.take(line.len() as int) =~= line);
    assert(first_line(line) == line);
}

proof fn lemma_not_a_fingerprint(lead: Seq<char>, core: Seq<char>)
    requires
        forall|i: int| 0 <= i < lead.len() ==> white_space(#[trigger] lead[i]),
        core.len() > 0 ==> !white_space(core[0]),
        !(core.len() >= 14 && core.take(14) == "a=fingerprint:"@),
    ensures
        fingerprint_in(lead + core) is None,
    decreases lead.len(),
{
    reveal_strlit("a=fingerprint:");
    let line = lead + core;
    if lead.len() > 0 {
        assert(line[0] == lead[0]);
        assert(line.skip(1) =~= lead.skip(1) + core);
        lemma_not_a_fingerprint(lead.skip(1), core);
    } else {
        assert(line =~= core);
        assert(trim_start(core) == core);
        lemma_trim_end_is_a_front(core);
        let t = trim_end(core);
        if begins_with(t, "a=fingerprint:"@) {
            assert(t.take(14) =~= core.take(14));
        }
    }
}

/// The binding of a connection is that of the two fingerprints; where either description
/// is missing or has none it is that of a fixed text with itself.
pub proof fn law_connections_bind_their_fingerprints(
    local: Option<Seq<char>>,
    remote: Option<Seq<char>>,
)
    ensures
        local is Some && remote is Some && fingerprint(local->0) is Some && fingerprint(
            remote->0,
        ) is Some ==> connection_binding(local, remote) == binding_for(
            fingerprint(local->0)->0,
            fingerprint(remote->0)->0,
        ),
        local is None || remote is None || fingerprint(local->0) is None || fingerprint(
            remote->0,
        ) is None ==> connection_binding(local, remote) == binding_for(
            "tether-no-fp"@,
            "tether-no-fp"@,
        ),
{
}

/// The chunks of a message are all of its chunks, each in its place.
pub proof fn law_chunks_are_complete(chunks: Seq<Bytes>, seq: u32, m: MessageModel, i: int)
    requires
        are_chunks(chunks, seq, m),
    ensures
        chunks.len() == chunk_count(wire(m).len()),
        0 <= i < chunks.len() ==> bytes_of(chunks[i]) == chunk(seq, wire(m), i),
{
}

} // verus!
