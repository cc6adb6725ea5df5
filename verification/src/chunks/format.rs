//! The chunks byte by byte, and which of them are taken.

use vstd::prelude::*;

use super::{accept, at_start, chunk, chunk_count, idle, lemma_tiling, Partial};

verus! {

/// A message takes as many chunks as it has full or begun stretches of 16376 bytes, and
/// at least one. Each chunk is the frame's number in four bytes, its index and the
/// count in two each, low byte first, and its stretch of the message: 16 KiB at most.
pub proof fn law_chunk_bytes(frame_seq: u32, wire: Seq<u8>, idx: int)
    requires
        0 <= idx < chunk_count(wire.len()),
    ensures
        ({
            let n = chunk_count(wire.len()) as int;
            let s = frame_seq;
            let to = if 16376 * (idx + 1) < wire.len() {
                16376 * (idx + 1)
            } else {
                wire.len() as int
            };
            &&& n >= 1
            &&& wire.len() == 0 ==> n == 1
            &&& wire.len() > 0 ==> 16376 * (n - 1) < wire.len() <= 16376 * n
            &&& chunk(frame_seq, wire, idx) == seq![
                (s % 256) as u8,
                (s / 256 % 256) as u8,
                (s / 65536 % 256) as u8,
                (s / 16777216) as u8,
                (idx % 256) as u8,
                (idx / 256 % 256) as u8,
                (n % 256) as u8,
                (n / 256 % 256) as u8,
            ] + wire.subrange(16376 * idx, to)
            &&& chunk(frame_seq, wire, idx).len() <= 16384
        }),
{
    let n = chunk_count(wire.len()) as int;
    let s = frame_seq;
    let to = if 16376 * (idx + 1) < wire.len() {
        16376 * (idx + 1)
    } else {
        wire.len() as int
    };
    lemma_tiling(wire.len(), idx);
    assert(chunk(frame_seq, wire, idx) =~= seq![
        (s % 256) as u8,
        (s / 256 % 256) as u8,
        (s / 65536 % 256) as u8,
        (s / 16777216) as u8,
        (idx % 256) as u8,
        (idx / 256 % 256) as u8,
        (n % 256) as u8,
        (n / 256 % 256) as u8,
    ] + wire.subrange(16376 * idx, to));
}

/// A buffer that is shorter than a header, or whose index is not below its count, is no
/// chunk: nothing comes of it.
pub proof fn law_malformed_chunks_do_nothing(p: Partial, c: Seq<u8>)
    requires
        c.len() < 8 || c[4] + 256 * c[5] >= c[6] + 256 * c[7],
    ensures
        accept(p, c) == (p, None::<Seq<u8>>),
{
}

/// A frame of one chunk comes out at once, as what follows the header, if it is the
/// first or up to 2^31 ahead of the one that came out last, counting around 2^32; any
/// other is late and nothing comes of it.
pub proof fn law_single_chunks_come_out(
    last: Option<u32>,
    s0: u8,
    s1: u8,
    s2: u8,
    s3: u8,
    slice: Seq<u8>,
)
    ensures
        ({
            let c = seq![s0, s1, s2, s3, 0u8, 0, 1, 0] + slice;
            let seq = s0 + 256 * s1 + 65536 * s2 + 16777216 * s3;
            let fresh = match last {
                None => true,
                Some(before) => {
                    let ahead = (seq - before) % 4294967296;
                    1 <= ahead <= 2147483648
                },
            };
            &&& fresh ==> accept(idle(last), c) == (idle(Some(seq as u32)), Some(slice))
            &&& !fresh ==> accept(idle(last), c) == (idle(last), None::<Seq<u8>>)
        }),
{
    let c = seq![s0, s1, s2, s3, 0u8, 0, 1, 0] + slice;
    assert(c[0] == s0 && c[1] == s1 && c[2] == s2 && c[3] == s3);
    assert(c[4] == 0 && c[5] == 0 && c[6] == 1 && c[7] == 0);
    assert(c.skip(8) =~= slice);
    reveal_with_fuel(super::join, 3);
    let none = Seq::<Option<Seq<u8>>>::new(1, |i: int| None);
    let parts = none.update(0, Some(slice));
    assert(parts.drop_last() =~= Seq::<Option<Seq<u8>>>::empty());
    assert(super::join(parts) =~= slice);
    assert(super::complete(parts));
}

/// While a frame is put together, a chunk of a frame up to 2^31 ahead of it, counting
/// around 2^32, takes its place, as if nothing were in progress, unless that frame or a
/// newer one came out before; a chunk of any other frame is dropped.
pub proof fn law_newest_frame_wins(p: Partial, c: Seq<u8>)
    requires
        p.seq is Some,
        c.len() >= 8,
        c[4] + 256 * c[5] < c[6] + 256 * c[7],
    ensures
        ({
            let seq = c[0] + 256 * c[1] + 65536 * c[2] + 16777216 * c[3];
            let ahead = (seq - p.seq->0) % 4294967296;
            let late = p.last is Some && (p.last->0 - seq) % 4294967296 < 2147483648;
            &&& 1 <= ahead <= 2147483648 ==> accept(p, c) == if late {
                (p, None::<Seq<u8>>)
            } else {
                accept(idle(p.last), c)
            }
            &&& ahead > 2147483648 ==> accept(p, c) == (p, None::<Seq<u8>>)
        }),
{
}

/// A new reassembler takes a first frame of any number.
pub proof fn law_first_frame_is_taken(s0: u8, s1: u8, s2: u8, s3: u8, slice: Seq<u8>)
    ensures
        accept(at_start(), seq![s0, s1, s2, s3, 0u8, 0, 1, 0] + slice).1 == Some(slice),
        at_start().seq is None && at_start().last is None && at_start().parts.len() == 0,
{
    law_single_chunks_come_out(None, s0, s1, s2, s3, slice);
}

/// A chunk of the frame in progress that names a part still missing is kept in that
/// part's place, while others are missing too; one that names another count, or a part
/// already there, is ignored.
pub proof fn law_parts_are_kept(p: Partial, c: Seq<u8>, missing: int)
    requires
        c.len() >= 8,
        c[4] + 256 * c[5] < c[6] + 256 * c[7],
        p.seq is Some,
        p.seq->0 == c[0] + 256 * c[1] + 65536 * c[2] + 16777216 * c[3],
        p.last is Some ==> (p.last->0 - p.seq->0) % 4294967296 >= 2147483648,
    ensures
        ({
            let idx = c[4] + 256 * c[5];
            let count = c[6] + 256 * c[7];
            &&& p.parts.len() != count ==> accept(p, c) == (p, None::<Seq<u8>>)
            &&& p.parts.len() == count && p.parts[idx] is Some ==> accept(p, c) == (
                p,
                None::<Seq<u8>>,
            )
            &&& p.parts.len() == count && p.parts[idx] is None && 0 <= missing < count && missing
                != idx && p.parts[missing] is None ==> accept(p, c) == (
                Partial {
                    last: p.last,
                    seq: p.seq,
                    parts: p.parts.update(idx, Some(c.skip(8))),
                },
                None::<Seq<u8>>,
            )
        }),
{
    let idx = c[4] + 256 * c[5];
    let parts = p.parts.update(idx, Some(c.skip(8)));
    if idx < p.parts.len() && 0 <= missing < p.parts.len() && missing != idx
        && p.parts[missing] is None {
        assert(parts[missing] is None);
    }
}

/// The first chunk of a frame of several starts it: as many parts as it names, all
/// missing but its own.
pub proof fn law_first_parts_start_a_frame(last: Option<u32>, c: Seq<u8>, i: int)
    requires
        c.len() >= 8,
        c[4] + 256 * c[5] < c[6] + 256 * c[7],
        c[6] + 256 * c[7] >= 2,
        last is Some ==> (last->0 - (c[0] + 256 * c[1] + 65536 * c[2] + 16777216 * c[3]))
            % 4294967296 >= 2147483648,
    ensures
        ({
            let idx = c[4] + 256 * c[5];
            let (after, out) = accept(idle(last), c);
            &&& out is None
            &&& after.last == last
            &&& after.seq is Some && after.seq->0 == c[0] + 256 * c[1] + 65536 * c[2] + 16777216
                * c[3]
            &&& after.parts.len() == c[6] + 256 * c[7]
            &&& after.parts[idx] == Some(c.skip(8))
            &&& 0 <= i < after.parts.len() && i != idx ==> after.parts[i] is None
        }),
{
    let idx = c[4] + 256 * c[5];
    let count = c[6] + 256 * c[7];
    let none = Seq::<Option<Seq<u8>>>::new(count as nat, |k: int| None);
    let parts = none.update(idx, Some(c.skip(8)));
    let other = if idx == 0 {
        1int
    } else {
        0int
    };
    assert(parts[other] is None);
}

} // verus!
