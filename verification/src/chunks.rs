//! Frame chunking for data channels, which cap the size of one message:
//!
//! ```text
//! [ u32 LE frame_seq ][ u16 LE chunk_idx ][ u16 LE chunk_count ][ slice ]
//! ```
//!
//! over slices of the complete wire message.

use bytes::Bytes;
use vstd::prelude::*;

use crate::buffers::{bytes_copy_from_slice, bytes_from_vec, bytes_of, bytes_slice};
use crate::le::{le16, le32, lemma_le16_low, num16, num32, read_u16, read_u32};

pub mod format;
pub mod laws;

verus! {

/// 16 KiB per message is the safe interop bound for data channels.
pub const CHUNK_PAYLOAD: usize = 16 * 1024 - 8;

pub const CHUNK_HEADER: usize = 8;

/// How many chunks a wire message of `len` bytes takes; an empty one takes one.
pub open spec fn chunk_count(len: nat) -> nat {
    if len == 0 {
        1
    } else {
        ((len + CHUNK_PAYLOAD - 1) / CHUNK_PAYLOAD as int) as nat
    }
}

/// The `idx`-th slice of a wire message.
pub open spec fn chunk_slice(wire: Seq<u8>, idx: int) -> Seq<u8> {
    let start = idx * CHUNK_PAYLOAD;
    wire.subrange(
        start,
        if start + CHUNK_PAYLOAD < wire.len() {
            start + CHUNK_PAYLOAD
        } else {
            wire.len() as int
        },
    )
}

/// The `idx`-th chunk of a wire message: its header, then its slice.
pub open spec fn chunk(frame_seq: u32, wire: Seq<u8>, idx: int) -> Seq<u8> {
    le32(frame_seq as int) + le16(idx) + le16(chunk_count(wire.len()) as int) + chunk_slice(
        wire,
        idx,
    )
}

/// The slices tile the message: every slice but the last is full, and the last
/// is not empty unless the message is.
pub proof fn lemma_tiling(len: nat, idx: int)
    requires
        0 <= idx < chunk_count(len),
    ensures
        idx * CHUNK_PAYLOAD == 16376 * idx,
        (idx + 1) * CHUNK_PAYLOAD == 16376 * (idx + 1),
        len > 0 ==> idx * CHUNK_PAYLOAD < len,
        len == 0 ==> idx == 0,
        idx + 1 < chunk_count(len) <==> (idx + 1) * CHUNK_PAYLOAD < len,
{
    assert(idx * CHUNK_PAYLOAD == 16376 * idx) by (nonlinear_arith)
        requires
            CHUNK_PAYLOAD == 16376,
    ;
    assert((idx + 1) * CHUNK_PAYLOAD == 16376 * (idx + 1)) by (nonlinear_arith)
        requires
            CHUNK_PAYLOAD == 16376,
    ;
    assert(CHUNK_PAYLOAD == 16376);
}

fn push_u16(v: &mut Vec<u8>, n: u16)
    ensures
        final(v)@ == old(v)@ + le16(n as int),
{
    v.push((n % 256) as u8);
    v.push((n / 256) as u8);
    assert(v@ =~= old(v)@ + le16(n as int));
}

fn push_u32(v: &mut Vec<u8>, n: u32)
    ensures
        final(v)@ == old(v)@ + le32(n as int),
{
    v.push((n % 256) as u8);
    v.push(((n / 256) % 256) as u8);
    v.push(((n / 0x1_0000) % 256) as u8);
    v.push((n / 0x100_0000) as u8);
    assert(v@ =~= old(v)@ + le32(n as int));
}

/// Split a wire message into chunks. The header holds the low 16 bits of the
/// index and of the count.
pub fn chunk_frame(frame_seq: u32, wire: &[u8]) -> (chunks: Vec<Bytes>)
    ensures
        chunks@.len() == chunk_count(wire@.len()),
        forall|i: int|
            0 <= i < chunks@.len() ==> bytes_of(#[trigger] chunks@[i]) == chunk(
                frame_seq,
                wire@,
                i,
            ),
{
    let len: usize = wire.len();
    let count: usize = if len == 0 {
        1
    } else {
        (len - 1) / CHUNK_PAYLOAD + 1
    };
    assert(count == chunk_count(wire@.len())) by {
        assert(CHUNK_PAYLOAD == 16376);
    }
    let mut chunks: Vec<Bytes> = Vec::new();
    let mut idx: usize = 0;
    let mut start: usize = 0;
    while idx < count
        invariant
            idx <= count,
            len == wire@.len(),
            count == chunk_count(wire@.len()),
            idx < count ==> start == idx * CHUNK_PAYLOAD,
            chunks@.len() == idx,
            forall|i: int|
                0 <= i < chunks@.len() ==> bytes_of(#[trigger] chunks@[i]) == chunk(
                    frame_seq,
                    wire@,
                    i,
                ),
        decreases count - idx,
    {
        proof {
            lemma_tiling(wire@.len(), idx as int);
        }
        let end: usize = if len - start < CHUNK_PAYLOAD {
            len
        } else {
            start + CHUNK_PAYLOAD
        };
        let slice: &[u8] = &wire[start..end];
        let mut chunk_bytes: Vec<u8> = Vec::new();
        push_u32(&mut chunk_bytes, frame_seq);
        let wide_idx: u64 = idx as u64;
        let wide_count: u64 = count as u64;
        push_u16(&mut chunk_bytes, wide_idx as u16);
        push_u16(&mut chunk_bytes, wide_count as u16);
        chunk_bytes.extend_from_slice(slice);
        proof {
            assert(wide_idx as u16 == wide_idx % 0x1_0000) by (bit_vector);
            assert(wide_count as u16 == wide_count % 0x1_0000) by (bit_vector);
            lemma_le16_low(wide_idx as int);
            lemma_le16_low(wide_count as int);
            assert(chunk_bytes@ =~= chunk(frame_seq, wire@, idx as int));
        }
        chunks.push(bytes_from_vec(chunk_bytes));
        start = end;
        idx += 1;
    }
    chunks
}

/// Whether frame `a` came before frame `b` (or is the same one), as sequence
/// numbers wrap around.
pub open spec fn older(a: u32, b: u32) -> bool {
    (b - a) % 0x1_0000_0000 < 0x8000_0000
}

fn seq_older(a: u32, b: u32) -> (r: bool)
    ensures
        r == older(a, b),
{
    b.wrapping_sub(a) < 0x8000_0000
}

/// The frame handed out last, and a frame being put together: its sequence
/// number and its parts, the missing ones `None`. Between frames there is no
/// number and no part.
#[verifier::ext_equal]
pub struct Partial {
    pub last: Option<u32>,
    pub seq: Option<u32>,
    pub parts: Seq<Option<Seq<u8>>>,
}

/// Between frames, once a frame was handed out, or before any was.
pub open spec fn idle(last: Option<u32>) -> Partial {
    Partial { last, seq: None, parts: Seq::empty() }
}

/// Before any chunk.
pub open spec fn at_start() -> Partial {
    idle(None)
}

pub open spec fn complete(parts: Seq<Option<Seq<u8>>>) -> bool {
    forall|i: int| 0 <= i < parts.len() ==> #[trigger] parts[i] is Some
}

/// The parts one after another.
pub open spec fn join(parts: Seq<Option<Seq<u8>>>) -> Seq<u8>
    decreases parts.len(),
{
    if parts.len() == 0 {
        Seq::empty()
    } else {
        join(parts.drop_last()) + parts.last()->0
    }
}

pub open spec fn header_seq(c: Seq<u8>) -> u32 {
    num32(c, 0) as u32
}

pub open spec fn header_idx(c: Seq<u8>) -> int {
    num16(c, 4)
}

pub open spec fn header_count(c: Seq<u8>) -> int {
    num16(c, 6)
}

/// A chunk that names a place within its frame.
pub open spec fn well_formed_chunk(c: Seq<u8>) -> bool {
    c.len() >= CHUNK_HEADER && header_idx(c) < header_count(c)
}

/// The frame a chunk is added to: the one in progress, or a new one in place
/// of it.
pub open spec fn frame_for(p: Partial, c: Seq<u8>) -> Partial {
    if p.seq == Some(header_seq(c)) {
        p
    } else {
        Partial {
            last: p.last,
            seq: Some(header_seq(c)),
            parts: Seq::new(header_count(c) as nat, |i: int| None),
        }
    }
}

/// Whether a chunk comes too late: its frame, or a newer one, was handed out.
pub open spec fn straggles(p: Partial, c: Seq<u8>) -> bool {
    p.last is Some && older(header_seq(c), p.last->0)
}

/// What one chunk does: the frame in progress afterwards, and the wire message
/// where the chunk completed it. Malformed chunks, stragglers, chunks of an
/// older frame, and parts already held change nothing that is in progress.
pub open spec fn accept(p: Partial, c: Seq<u8>) -> (Partial, Option<Seq<u8>>) {
    if !well_formed_chunk(c) || straggles(p, c) {
        (p, None)
    } else if p.seq is Some && p.seq != Some(header_seq(c)) && older(header_seq(c), p.seq->0) {
        (p, None)
    } else {
        let base = frame_for(p, c);
        if header_count(c) != base.parts.len() || base.parts[header_idx(c)] is Some {
            (base, None)
        } else {
            let parts = base.parts.update(header_idx(c), Some(c.skip(CHUNK_HEADER as int)));
            if complete(parts) {
                (idle(base.seq), Some(join(parts)))
            } else {
                (Partial { parts, ..base }, None)
            }
        }
    }
}

/// The number of parts that are there.
spec fn held(parts: Seq<Option<Bytes>>) -> nat
    decreases parts.len(),
{
    if parts.len() == 0 {
        0
    } else {
        held(parts.drop_last()) + (if parts.last() is Some {
            1nat
        } else {
            0nat
        })
    }
}

proof fn lemma_held_bound(parts: Seq<Option<Bytes>>)
    ensures
        held(parts) <= parts.len(),
        held(parts) == parts.len() <==> (forall|i: int|
            0 <= i < parts.len() ==> #[trigger] parts[i] is Some),
    decreases parts.len(),
{
    if parts.len() > 0 {
        let front = parts.drop_last();
        lemma_held_bound(front);
        assert forall|i: int| 0 <= i < front.len() implies front[i] == parts[i] by {}
        if held(parts) == parts.len() {
            assert forall|i: int| 0 <= i < parts.len() implies #[trigger] parts[i] is Some by {
                if i < front.len() {
                    assert(front[i] is Some);
                }
            }
        }
        if forall|i: int| 0 <= i < parts.len() ==> #[trigger] parts[i] is Some {
            assert forall|i: int| 0 <= i < front.len() implies #[trigger] front[i] is Some by {
                assert(parts[i] is Some);
            }
            assert(parts[parts.len() - 1] is Some);
        }
    }
}

proof fn lemma_held_update(parts: Seq<Option<Bytes>>, idx: int, b: Bytes)
    requires
        0 <= idx < parts.len(),
        parts[idx] is None,
    ensures
        held(parts.update(idx, Some(b))) == held(parts) + 1,
    decreases parts.len(),
{
    let new = parts.update(idx, Some(b));
    if idx == parts.len() - 1 {
        assert(new.drop_last() =~= parts.drop_last());
    } else {
        lemma_held_update(parts.drop_last(), idx, b);
        assert(new.drop_last() =~= parts.drop_last().update(idx, Some(b)));
    }
}

proof fn lemma_held_none(parts: Seq<Option<Bytes>>)
    requires
        forall|i: int| 0 <= i < parts.len() ==> #[trigger] parts[i] is None,
    ensures
        held(parts) == 0,
    decreases parts.len(),
{
    if parts.len() > 0 {
        assert(parts[parts.len() - 1] is None);
        assert forall|i: int| 0 <= i < parts.drop_last().len() implies #[trigger] parts.drop_last()[i] is None by {
            assert(parts[i] is None);
        }
        lemma_held_none(parts.drop_last());
    }
}

/// Latest-wins reassembler: chunks of one frame in any order; a newer frame
/// replaces an unfinished older one, and no frame comes out after a newer one.
pub struct FrameReassembler {
    last: Option<u32>,
    seq: Option<u32>,
    count: usize,
    received: usize,
    parts: Vec<Option<Bytes>>,
}

/// The parts as byte sequences.
pub open spec fn parts_view(parts: Seq<Option<Bytes>>) -> Seq<Option<Seq<u8>>> {
    parts.map_values(
        |p: Option<Bytes>|
            match p {
                Some(b) => Some(bytes_of(b)),
                None => None,
            },
    )
}

impl View for FrameReassembler {
    type V = Partial;

    closed spec fn view(&self) -> Partial {
        Partial { last: self.last, seq: self.seq, parts: parts_view(self.parts@) }
    }
}

impl Default for FrameReassembler {
    fn default() -> (r: Self)
        ensures
            r@ == at_start(),
            r@ == idle(None),
            r.wf(),
    {
        let r = FrameReassembler {
            last: None,
            seq: None,
            count: 0,
            received: 0,
            parts: Vec::new(),
        };
        assert(r@ =~= idle(None));
        r
    }
}

impl FrameReassembler {
    pub closed spec fn wf(&self) -> bool {
        &&& self.seq is Some ==> self.count == self.parts@.len() && self.received == held(
            self.parts@,
        ) && self.received < self.count
        &&& self.seq is None ==> self.parts@.len() == 0
    }

    /// Take one chunk; the wire message when it was the last missing one.
    pub fn on_chunk(&mut self, bytes: &[u8]) -> (r: Option<Bytes>)
        requires
            old(self).wf(),
        ensures
            final(self).wf(),
            final(self)@ == accept(old(self)@, bytes@).0,
            match r {
                Some(wire) => accept(old(self)@, bytes@).1 == Some(bytes_of(wire)),
                None => accept(old(self)@, bytes@).1 is None,
            },
    {
        if bytes.len() < CHUNK_HEADER {
            return None;
        }
        let seq: u32 = read_u32(bytes, 0);
        let idx: usize = read_u16(bytes, 4) as usize;
        let count: usize = read_u16(bytes, 6) as usize;
        if count == 0 || idx >= count {
            return None;
        }
        if let Some(last) = self.last {
            if seq_older(seq, last) {
                return None;
            }
        }
        let same: bool = match self.seq {
            Some(current) => current == seq,
            None => false,
        };
        if !same {
            if let Some(current) = self.seq {
                if seq_older(seq, current) {
                    return None;
                }
            }
            self.seq = Some(seq);
            self.count = count;
            self.received = 0;
            self.parts = no_parts(count);
            proof {
                lemma_held_none(self.parts@);
            }
        }
        assert(self@ =~= frame_for(old(self)@, bytes@));
        let ghost base = *self;
        if count != self.count || self.parts[idx].is_some() {
            return None;
        }
        let slice: &[u8] = &bytes[CHUNK_HEADER..bytes.len()];
        let part: Bytes = bytes_copy_from_slice(slice);
        self.parts.set(idx, Some(part));
        self.received += 1;
        proof {
            assert(slice@ =~= bytes@.skip(CHUNK_HEADER as int));
            lemma_held_update(base.parts@, idx as int, part);
            lemma_held_bound(self.parts@);
            assert(self@.parts =~= base@.parts.update(
                idx as int,
                Some(bytes@.skip(CHUNK_HEADER as int)),
            ));
        }
        if self.received < self.count {
            proof {
                let i = choose|i: int| 0 <= i < self.parts@.len() && !(self.parts@[i] is Some);
                assert(self@.parts[i] is None);
            }
            return None;
        }
        proof {
            assert forall|i: int| 0 <= i < self@.parts.len() implies #[trigger] self@.parts[i] is Some by {
                assert(self.parts@[i] is Some);
            }
        }
        let ghost parts = self@.parts;
        let mut wire: Vec<u8> = Vec::new();
        let mut i: usize = 0;
        while i < self.parts.len()
            invariant
                i <= self.parts@.len(),
                parts == parts_view(self.parts@),
                complete(parts),
                wire@ == join(parts.take(i as int)),
            decreases self.parts@.len() - i,
        {
            assert(parts[i as int] is Some);
            if let Some(part) = &self.parts[i] {
                wire.extend_from_slice(bytes_slice(part));
            }
            proof {
                assert(parts.take(i as int + 1).drop_last() =~= parts.take(i as int));
                assert(wire@ =~= join(parts.take(i as int + 1)));
            }
            i += 1;
        }
        assert(parts.take(i as int) =~= parts);
        self.parts = Vec::new();
        self.last = Some(seq);
        self.seq = None;
        assert(self@ =~= idle(Some(seq)));
        Some(bytes_from_vec(wire))
    }
}

fn no_parts(count: usize) -> (parts: Vec<Option<Bytes>>)
    ensures
        parts@.len() == count,
        forall|i: int| 0 <= i < count ==> #[trigger] parts@[i] is None,
{
    let mut parts: Vec<Option<Bytes>> = Vec::new();
    while parts.len() < count
        invariant
            parts@.len() <= count,
            forall|i: int| 0 <= i < parts@.len() ==> #[trigger] parts@[i] is None,
        decreases count - parts@.len(),
    {
        parts.push(None);
    }
    parts
}

} // verus!
