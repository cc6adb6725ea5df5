//! What chunking and reassembly promise together.

use vstd::prelude::*;

use super::{
    accept, chunk, chunk_count, chunk_slice, complete, frame_for, header_count, header_idx,
    header_seq, idle, join, lemma_tiling, older, well_formed_chunk, Partial, CHUNK_HEADER,
    CHUNK_PAYLOAD,
};
use crate::le::{le16, le32, lemma_num16_le16, lemma_num32_le32};

verus! {

/// The frame in progress after a series of chunks.
pub open spec fn feed(p: Partial, chunks: Seq<Seq<u8>>) -> Partial
    decreases chunks.len(),
{
    if chunks.len() == 0 {
        p
    } else {
        accept(feed(p, chunks.drop_last()), chunks.last()).0
    }
}

/// The chunks of a frame in a given order.
pub open spec fn sent(frame_seq: u32, wire: Seq<u8>, order: Seq<int>) -> Seq<Seq<u8>> {
    order.map_values(|i: int| chunk(frame_seq, wire, i))
}

/// Each of the `n` indices once.
pub open spec fn is_order(order: Seq<int>, n: nat) -> bool {
    &&& order.len() == n
    &&& order.no_duplicates()
    &&& forall|k: int| 0 <= k < order.len() ==> 0 <= #[trigger] order[k] < n
}

/// Whether a frame may start while `p` is in progress: nothing newer was handed
/// out, and nothing is in progress or something older.
pub open spec fn may_start(p: Partial, frame_seq: u32) -> bool {
    &&& p.last is None || !older(frame_seq, p.last->0)
    &&& p.seq is None || (p.seq != Some(frame_seq) && !older(frame_seq, p.seq->0))
}

/// What comes in while a frame is sent: its chunks, as often as it happens, and
/// malformed buffers between them. `ids` tells which chunk each buffer is.
pub open spec fn is_traffic(
    frame_seq: u32,
    wire: Seq<u8>,
    bufs: Seq<Seq<u8>>,
    ids: Seq<Option<int>>,
) -> bool {
    &&& ids.len() == bufs.len()
    &&& forall|k: int|
        0 <= k < ids.len() ==> match #[trigger] ids[k] {
            Some(i) => 0 <= i < chunk_count(wire.len()) && bufs[k] == chunk(frame_seq, wire, i),
            None => !well_formed_chunk(bufs[k]),
        }
}

/// The parts held once some chunks have come.
spec fn parts_after(wire: Seq<u8>, got: Seq<Option<int>>) -> Seq<Option<Seq<u8>>> {
    Seq::new(
        chunk_count(wire.len()),
        |i: int|
            if got.contains(Some(i)) {
                Some(chunk_slice(wire, i))
            } else {
                None
            },
    )
}

/// The frame in progress once some chunks have come; before the first of them
/// nothing has changed.
spec fn progress(p: Partial, frame_seq: u32, wire: Seq<u8>, got: Seq<Option<int>>) -> Partial {
    if forall|k: int| 0 <= k < got.len() ==> #[trigger] got[k] is None {
        p
    } else {
        Partial { last: p.last, seq: Some(frame_seq), parts: parts_after(wire, got) }
    }
}

proof fn lemma_header(frame_seq: u32, wire: Seq<u8>, i: int)
    requires
        0 <= i < chunk_count(wire.len()) < 0x1_0000,
    ensures
        ({
            let c = chunk(frame_seq, wire, i);
            &&& well_formed_chunk(c)
            &&& header_seq(c) == frame_seq
            &&& header_idx(c) == i
            &&& header_count(c) == chunk_count(wire.len())
            &&& c.skip(CHUNK_HEADER as int) == chunk_slice(wire, i)
        }),
{
    let c = chunk(frame_seq, wire, i);
    let none = Seq::<u8>::empty();
    let a = le32(frame_seq as int);
    let b = le16(i);
    let n = chunk_count(wire.len()) as int;
    let s = chunk_slice(wire, i);
    lemma_tiling(wire.len(), i);
    assert(c =~= none + a + (b + le16(n) + s));
    lemma_num32_le32(frame_seq as int, none, b + le16(n) + s);
    assert(c =~= a + b + (le16(n) + s));
    lemma_num16_le16(i, a, le16(n) + s);
    assert(c =~= (a + b) + le16(n) + s);
    lemma_num16_le16(n, a + b, s);
    assert(c.skip(CHUNK_HEADER as int) =~= s);
}

proof fn lemma_join_prefix(wire: Seq<u8>, parts: Seq<Option<Seq<u8>>>, k: int)
    requires
        0 <= k <= parts.len() == chunk_count(wire.len()),
        forall|i: int| 0 <= i < parts.len() ==> #[trigger] parts[i] == Some(chunk_slice(wire, i)),
    ensures
        k < parts.len() ==> join(parts.take(k)) == wire.take(16376 * k),
        k == parts.len() ==> join(parts.take(k)) == wire,
    decreases k,
{
    if k == 0 {
        assert(parts.take(0) =~= Seq::empty());
        assert(wire.take(0) =~= Seq::<u8>::empty());
    } else {
        lemma_join_prefix(wire, parts, k - 1);
        lemma_tiling(wire.len(), k - 1);
        let front = parts.take(k).drop_last();
        assert(front =~= parts.take(k - 1));
        let slice = chunk_slice(wire, k - 1);
        assert(parts.take(k).last() == Some(slice));
        assert(join(parts.take(k)) == wire.take(16376 * (k - 1)) + slice);
        if k < parts.len() {
            assert(wire.take(16376 * (k - 1)) + slice =~= wire.take(16376 * k));
        } else {
            assert(wire.take(16376 * (k - 1)) + slice =~= wire);
        }
    }
}

proof fn lemma_order_covers(order: Seq<int>, n: nat, i: int)
    requires
        is_order(order, n),
        0 <= i < n,
    ensures
        order.contains(i),
{
    let range = vstd::set_lib::set_int_range(0, n as int);
    vstd::set_lib::lemma_int_range(0, n as int);
    order.unique_seq_to_set();
    assert(order.to_set().subset_of(range));
    vstd::set_lib::lemma_subset_equality(order.to_set(), range);
    assert(order.to_set().contains(i));
}

proof fn lemma_step(
    p: Partial,
    frame_seq: u32,
    wire: Seq<u8>,
    got: Seq<Option<int>>,
    i: int,
)
    requires
        0 <= i < chunk_count(wire.len()) < 0x1_0000,
        may_start(p, frame_seq),
    ensures
        ({
            let before = progress(p, frame_seq, wire, got);
            let parts = parts_after(wire, got.push(Some(i)));
            let after = accept(before, chunk(frame_seq, wire, i));
            &&& got.contains(Some(i)) ==> after == (before, None::<Seq<u8>>)
            &&& got.contains(Some(i)) ==> progress(p, frame_seq, wire, got.push(Some(i))) == before
            &&& !got.contains(Some(i)) && !complete(parts) ==> after == (
                progress(p, frame_seq, wire, got.push(Some(i))),
                None::<Seq<u8>>,
            )
            &&& !got.contains(Some(i)) && complete(parts) ==> after == (
                idle(Some(frame_seq)),
                Some(join(parts)),
            )
        }),
{
    let before = progress(p, frame_seq, wire, got);
    let c = chunk(frame_seq, wire, i);
    let next = got.push(Some(i));
    let n = chunk_count(wire.len());
    lemma_header(frame_seq, wire, i);
    assert(next[got.len() as int] == Some(i));
    assert(next.contains(Some(i)));
    assert forall|j: int| j != i implies #[trigger] next.contains(Some(j)) == got.contains(
        Some(j),
    ) by {
        if got.contains(Some(j)) {
            let k = choose|k: int| 0 <= k < got.len() && got[k] == Some(j);
            assert(next[k] == Some(j));
        }
        if next.contains(Some(j)) {
            let k = choose|k: int| 0 <= k < next.len() && next[k] == Some(j);
            assert(got[k] == Some(j));
        }
    }
    if forall|k: int| 0 <= k < got.len() ==> #[trigger] got[k] is None {
        assert forall|j: int| !got.contains(Some(j)) by {
            if got.contains(Some(j)) {
                let k = choose|k: int| 0 <= k < got.len() && got[k] == Some(j);
                assert(got[k] is None);
            }
        }
    }
    let base = frame_for(before, c);
    assert(base.parts =~= parts_after(wire, got));
    assert(base.seq == Some(frame_seq) && base.last == p.last);
    if got.contains(Some(i)) {
        assert(parts_after(wire, next) =~= parts_after(wire, got));
        let k = choose|k: int| 0 <= k < got.len() && got[k] == Some(i);
        assert(got[k] is Some);
        assert(base == before);
        assert(base.parts[i] is Some);
    } else {
        assert(base.parts.update(i, Some(chunk_slice(wire, i))) =~= parts_after(wire, next));
    }
}

proof fn lemma_traffic(
    p: Partial,
    frame_seq: u32,
    wire: Seq<u8>,
    bufs: Seq<Seq<u8>>,
    ids: Seq<Option<int>>,
    missing: int,
    k: int,
)
    requires
        0 <= missing < chunk_count(wire.len()) < 0x1_0000,
        is_traffic(frame_seq, wire, bufs, ids),
        may_start(p, frame_seq),
        0 <= k <= ids.len(),
        !ids.take(k).contains(Some(missing)),
    ensures
        feed(p, bufs.take(k)) == progress(p, frame_seq, wire, ids.take(k)),
        k > 0 ==> accept(feed(p, bufs.take(k - 1)), bufs[k - 1]).1 is None,
    decreases k,
{
    if k == 0 {
        assert(bufs.take(0) =~= Seq::empty());
    } else {
        let got = ids.take(k - 1);
        assert(ids.take(k) =~= got.push(ids[k - 1]));
        assert forall|j: int| 0 <= j < got.len() implies #[trigger] got[j] != Some(missing) by {
            assert(ids.take(k)[j] == got[j]);
        }
        lemma_traffic(p, frame_seq, wire, bufs, ids, missing, k - 1);
        assert(bufs.take(k).drop_last() =~= bufs.take(k - 1));
        assert(bufs.take(k).last() == bufs[k - 1]);
        match ids[k - 1] {
            Some(i) => {
                lemma_step(p, frame_seq, wire, got, i);
                let parts = parts_after(wire, got.push(Some(i)));
                assert(parts[missing] is None);
            },
            None => {
                let next = got.push(None);
                assert forall|j: int| #[trigger] next.contains(Some(j)) == got.contains(
                    Some(j),
                ) by {
                    if got.contains(Some(j)) {
                        let q = choose|q: int| 0 <= q < got.len() && got[q] == Some(j);
                        assert(next[q] == Some(j));
                    }
                    if next.contains(Some(j)) {
                        let q = choose|q: int| 0 <= q < next.len() && next[q] == Some(j);
                        assert(got[q] == Some(j));
                    }
                }
                assert(parts_after(wire, next) =~= parts_after(wire, got));
                if forall|j: int| 0 <= j < got.len() ==> #[trigger] got[j] is None {
                    assert forall|j: int| 0 <= j < next.len() implies #[trigger] next[j] is None by {
                        if j < got.len() {
                            assert(got[j] is None);
                        }
                    }
                } else {
                    let j = choose|j: int| 0 <= j < got.len() && !(got[j] is None);
                    assert(next[j] is Some);
                }
            },
        }
    }
}

/// The chunks of a frame give the wire message back in whatever order and
/// however often they come, and whatever malformed buffers come between them:
/// nothing comes out before the last missing chunk, and the message comes out
/// with it. The count fits the 16 bits of the header.
pub proof fn law_reassembly(
    p: Partial,
    frame_seq: u32,
    wire: Seq<u8>,
    bufs: Seq<Seq<u8>>,
    ids: Seq<Option<int>>,
)
    requires
        chunk_count(wire.len()) < 0x1_0000,
        may_start(p, frame_seq),
        is_traffic(frame_seq, wire, bufs, ids),
        ids.len() > 0,
        ids.last() is Some,
        !ids.drop_last().contains(ids.last()),
        forall|i: int| 0 <= i < chunk_count(wire.len()) ==> #[trigger] ids.contains(Some(i)),
    ensures
        forall|k: int|
            0 <= k < bufs.len() - 1 ==> (#[trigger] accept(feed(p, bufs.take(k)), bufs[k])).1
                is None,
        accept(feed(p, bufs.drop_last()), bufs.last()) == (idle(Some(frame_seq)), Some(wire)),
{
    let n = chunk_count(wire.len());
    let last = ids.len() - 1;
    let m = ids.last()->0;
    assert(ids[last] == Some(m));
    assert(0 <= m < n);
    assert forall|k: int| 0 <= k < bufs.len() - 1 implies (#[trigger] accept(
        feed(p, bufs.take(k)),
        bufs[k],
    )).1 is None by {
        assert(!ids.take(k + 1).contains(Some(m))) by {
            if ids.take(k + 1).contains(Some(m)) {
                let front = ids.take(k + 1);
                let q = choose|q: int| 0 <= q < front.len() && front[q] == Some(m);
                assert(ids.drop_last()[q] == Some(m));
            }
        }
        lemma_traffic(p, frame_seq, wire, bufs, ids, m, k + 1);
    }
    assert(ids.take(last) =~= ids.drop_last());
    assert(bufs.take(last) =~= bufs.drop_last());
    lemma_traffic(p, frame_seq, wire, bufs, ids, m, last);
    lemma_step(p, frame_seq, wire, ids.drop_last(), m);
    assert(ids.drop_last().push(Some(m)) =~= ids);
    let parts = parts_after(wire, ids);
    assert forall|i: int| 0 <= i < parts.len() implies #[trigger] parts[i] == Some(
        chunk_slice(wire, i),
    ) by {
        assert(ids.contains(Some(i)));
    }
    lemma_join_prefix(wire, parts, n as int);
    assert(parts.take(n as int) =~= parts);
}

/// The chunks of a frame give the wire message back whatever order they come
/// in: nothing comes out before the last of them, and the message comes out
/// with it.
pub proof fn law_any_order(p: Partial, frame_seq: u32, wire: Seq<u8>, order: Seq<int>)
    requires
        chunk_count(wire.len()) < 0x1_0000,
        is_order(order, chunk_count(wire.len())),
        may_start(p, frame_seq),
    ensures
        ({
            let all = sent(frame_seq, wire, order);
            &&& forall|k: int|
                0 <= k < all.len() - 1 ==> (#[trigger] accept(feed(p, all.take(k)), all[k])).1
                    is None
            &&& accept(feed(p, all.drop_last()), all.last()) == (idle(Some(frame_seq)), Some(wire))
        }),
{
    let all = sent(frame_seq, wire, order);
    let ids = order.map_values(|i: int| Some(i));
    let n = chunk_count(wire.len());
    assert(n >= 1) by {
        assert(CHUNK_PAYLOAD == 16376);
    }
    assert(!ids.drop_last().contains(ids.last())) by {
        if ids.drop_last().contains(ids.last()) {
            let q = choose|q: int| 0 <= q < n - 1 && ids.drop_last()[q] == ids.last();
            assert(order[q] == order[n - 1]);
        }
    }
    assert forall|i: int| 0 <= i < n implies #[trigger] ids.contains(Some(i)) by {
        lemma_order_covers(order, n, i);
        let q = choose|q: int| 0 <= q < order.len() && order[q] == i;
        assert(ids[q] == Some(i));
    }
    law_reassembly(p, frame_seq, wire, all, ids);
}

/// A chunk that comes again changes nothing and gives nothing.
pub proof fn law_duplicate_is_ignored(p: Partial, c: Seq<u8>)
    requires
        well_formed_chunk(c),
        p.seq == Some(header_seq(c)),
        p.parts.len() == header_count(c),
        p.parts[header_idx(c)] is Some,
    ensures
        accept(p, c) == (p, None::<Seq<u8>>),
{
}

/// While a frame is in progress, chunks of an older one are dropped.
pub proof fn law_older_frame_is_dropped(p: Partial, c: Seq<u8>)
    requires
        p.seq is Some,
        header_seq(c) != p.seq->0,
        older(header_seq(c), p.seq->0),
    ensures
        accept(p, c) == (p, None::<Seq<u8>>),
{
}

/// Once a frame was handed out, no chunk of it or of an older one does anything:
/// a straggler resurrects nothing.
pub proof fn law_straggler_is_dropped(p: Partial, c: Seq<u8>)
    requires
        p.last is Some,
        older(header_seq(c), p.last->0),
    ensures
        accept(p, c) == (p, None::<Seq<u8>>),
{
}

/// Frames come out in their order: whatever comes out is newer than what came
/// out before it, and is then the last.
pub proof fn law_frames_come_out_in_order(p: Partial, c: Seq<u8>)
    ensures
        accept(p, c).1 is Some ==> {
            &&& accept(p, c).0.last == Some(header_seq(c))
            &&& p.last is Some ==> !older(header_seq(c), p.last->0)
        },
        accept(p, c).1 is None ==> accept(p, c).0.last == p.last,
{
}

/// A newer frame discards what was held of an unfinished older one: the
/// outcome is the one of an idle reassembler.
pub proof fn law_newer_frame_starts_afresh(p: Partial, c: Seq<u8>)
    requires
        well_formed_chunk(c),
        may_start(p, header_seq(c)),
    ensures
        accept(p, c) == accept(idle(p.last), c),
{
}

/// Every frame in progress lacks a part.
pub open spec fn unfinished(p: Partial) -> bool {
    if p.seq is Some {
        !complete(p.parts)
    } else {
        p == idle(p.last)
    }
}

/// A complete frame never stays inside the reassembler.
pub proof fn law_never_holds_a_complete_frame(p: Partial, c: Seq<u8>)
    requires
        unfinished(p),
    ensures
        unfinished(accept(p, c).0),
{
    if well_formed_chunk(c) {
        let base = frame_for(p, c);
        if p.seq != Some(header_seq(c)) {
            assert(base.parts[0] is None);
        }
    }
}

} // verus!
