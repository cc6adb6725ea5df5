//! H.264 access units: from the length-prefixed form (AVCC) that hardware
//! encoders produce to the start-code form (Annex B) that is sent.
//!
//! Every access unit uses 4-byte start codes, and keyframes carry SPS/PPS
//! in-band, so each payload is decodable on its own by a decoder configured
//! without a description.

use vstd::prelude::*;

pub mod laws;

verus! {

pub const KEYFRAME_INTERVAL_FRAMES: i32 = 60;

pub const FPS: i32 = 30;

/// Ticks of the 90 kHz clock from one frame to the next.
pub const PTS_STEP: i64 = 3_000;

pub open spec fn start_code() -> Seq<u8> {
    seq![0u8, 0, 0, 1]
}

/// A number written with its highest byte first.
pub open spec fn big_endian(s: Seq<u8>) -> nat
    decreases s.len(),
{
    if s.len() == 0 {
        0
    } else {
        256 * big_endian(s.drop_last()) + s.last() as nat
    }
}

/// The units of length-prefixed data, the prefixes `n` bytes long; `None` where
/// a unit is empty or runs past the end. Fewer than `n` bytes at the end are no
/// unit.
pub open spec fn units(s: Seq<u8>, n: nat) -> Option<Seq<Seq<u8>>>
    decreases s.len(),
{
    if s.len() < n {
        Some(Seq::empty())
    } else {
        let len = big_endian(s.take(n as int));
        if len == 0 || n + len > s.len() {
            None
        } else {
            match units(s.skip((n + len) as int), n) {
                None => None,
                Some(rest) => Some(seq![s.subrange(n as int, (n + len) as int)] + rest),
            }
        }
    }
}

/// Units with a start code before each.
pub open spec fn annex_b_of(us: Seq<Seq<u8>>) -> Seq<u8>
    decreases us.len(),
{
    if us.len() == 0 {
        Seq::empty()
    } else {
        annex_b_of(us.drop_last()) + start_code() + us.last()
    }
}

/// A list of byte vectors as a value.
pub open spec fn sets_view(v: Seq<Vec<u8>>) -> Seq<Seq<u8>> {
    v.map_values(|b: Vec<u8>| b@)
}

/// The access unit: parameter sets first, then the units of the data.
pub open spec fn access_unit(sets: Seq<Seq<u8>>, avcc: Seq<u8>, n: nat) -> Option<Seq<u8>> {
    match units(avcc, n) {
        None => None,
        Some(us) => Some(annex_b_of(sets + us)),
    }
}

/// Units that were found before the rest was looked at.
spec fn after(done: Seq<Seq<u8>>, rest: Option<Seq<Seq<u8>>>) -> Option<Seq<Seq<u8>>> {
    match rest {
        None => None,
        Some(us) => Some(done + us),
    }
}

fn push_unit(out: &mut Vec<u8>, unit: &[u8])
    ensures
        final(out)@ == old(out)@ + start_code() + unit@,
{
    out.push(0);
    out.push(0);
    out.push(0);
    out.push(1);
    out.extend_from_slice(unit);
    assert(out@ =~= old(out)@ + start_code() + unit@);
}

proof fn lemma_annex_b_push(us: Seq<Seq<u8>>, u: Seq<u8>)
    ensures
        annex_b_of(us.push(u)) == annex_b_of(us) + start_code() + u,
{
    assert(us.push(u).drop_last() =~= us);
}

proof fn lemma_big_endian_bound(s: Seq<u8>)
    requires
        s.len() <= 4,
    ensures
        big_endian(s) < 0x1_0000_0000,
        s.len() <= 3 ==> big_endian(s) < 0x100_0000,
        s.len() <= 2 ==> big_endian(s) < 0x1_0000,
        s.len() <= 1 ==> big_endian(s) < 0x100,
    decreases s.len(),
{
    if s.len() > 0 {
        lemma_big_endian_bound(s.drop_last());
    }
}

fn read_length(s: &[u8], at: usize, n: usize) -> (len: usize)
    requires
        at + n <= s@.len(),
        n <= 4,
    ensures
        len == big_endian(s@.subrange(at as int, at + n)),
{
    let mut len: usize = 0;
    let mut i: usize = 0;
    assert(s@.subrange(at as int, at as int) =~= Seq::empty());
    while i < n
        invariant
            i <= n <= 4,
            at + n <= s@.len(),
            len == big_endian(s@.subrange(at as int, at + i)),
        decreases n - i,
    {
        proof {
            lemma_big_endian_bound(s@.subrange(at as int, at + i));
            lemma_big_endian_bound(s@.subrange(at as int, at + i + 1));
            assert(s@.subrange(at as int, at + i + 1).drop_last() =~= s@.subrange(
                at as int,
                at + i,
            ));
        }
        assert(at + n <= s.len());
        len = len * 256 + s[at + i] as usize;
        i += 1;
    }
    len
}

/// Rewrite an access unit: parameter sets (keyframes carry them), then the
/// units of the length-prefixed data, each behind a start code. `Err` where the
/// data is not framed as it should be.
pub fn annex_b(parameter_sets: &Vec<Vec<u8>>, avcc: &[u8], nal_len_size: usize) -> (r: Result<
    Vec<u8>,
    String,
>)
    requires
        nal_len_size <= 4,
    ensures
        match r {
            Ok(out) => access_unit(sets_view(parameter_sets@), avcc@, nal_len_size as nat) == Some(
                out@,
            ),
            Err(e) => access_unit(sets_view(parameter_sets@), avcc@, nal_len_size as nat) is None
                && e@ == "corrupt AVCC framing"@,
        },
{
    let ghost n = nal_len_size as nat;
    let ghost sets = sets_view(parameter_sets@);
    let mut out: Vec<u8> = Vec::new();
    let mut index: usize = 0;
    assert(sets.take(0) =~= Seq::empty());
    while index < parameter_sets.len()
        invariant
            index <= parameter_sets@.len(),
            sets == sets_view(parameter_sets@),
            out@ == annex_b_of(sets.take(index as int)),
        decreases parameter_sets@.len() - index,
    {
        push_unit(&mut out, parameter_sets[index].as_slice());
        proof {
            lemma_annex_b_push(sets.take(index as int), sets[index as int]);
            assert(sets.take(index as int + 1) =~= sets.take(index as int).push(
                sets[index as int],
            ));
        }
        index += 1;
    }
    assert(sets.take(index as int) =~= sets);
    let ghost mut done: Seq<Seq<u8>> = Seq::empty();
    let mut offset: usize = 0;
    proof {
        assert(sets + done =~= sets);
        assert(avcc@.skip(0) =~= avcc@);
        if let Some(us) = units(avcc@, n) {
            assert(done + us =~= us);
        }
    }
    while nal_len_size <= avcc.len() - offset
        invariant
            offset <= avcc@.len(),
            nal_len_size <= 4,
            n == nal_len_size,
            sets == sets_view(parameter_sets@),
            out@ == annex_b_of(sets + done),
            units(avcc@, n) == after(done, units(avcc@.skip(offset as int), n)),
        decreases avcc@.len() - offset,
    {
        let ghost here = avcc@.skip(offset as int);
        let nal_len: usize = read_length(avcc, offset, nal_len_size);
        assert(avcc@.subrange(offset as int, offset + n) =~= here.take(n as int));
        let body: usize = offset + nal_len_size;
        if nal_len == 0 || nal_len > avcc.len() - body {
            return Err("corrupt AVCC framing".to_owned());
        }
        let unit: &[u8] = &avcc[body..body + nal_len];
        push_unit(&mut out, unit);
        proof {
            let u = unit@;
            assert(u =~= here.subrange(n as int, n + nal_len));
            assert(avcc@.skip(body + nal_len) =~= here.skip(n + nal_len));
            lemma_annex_b_push(sets + done, u);
            assert((sets + done).push(u) =~= sets + done.push(u));
            if let Some(rest) = units(here.skip(n + nal_len), n) {
                assert(done + (seq![u] + rest) =~= done.push(u) + rest);
            }
            done = done.push(u);
        }
        offset = body + nal_len;
    }
    proof {
        assert(units(avcc@.skip(offset as int), n) == Some(Seq::<Seq<u8>>::empty()));
        assert(done + Seq::<Seq<u8>>::empty() =~= done);
    }
    Ok(out)
}

/// A length in `n` bytes, the highest first.
pub open spec fn prefix(len: nat, n: nat) -> Seq<u8>
    decreases n,
{
    if n == 0 {
        Seq::empty()
    } else {
        prefix(len / 256, (n - 1) as nat).push((len % 256) as u8)
    }
}

/// The largest number that `n` bytes hold, plus one.
pub open spec fn capacity(n: nat) -> nat
    decreases n,
{
    if n == 0 {
        1
    } else {
        256 * capacity((n - 1) as nat)
    }
}

/// Units in length-prefixed form.
pub open spec fn framed(us: Seq<Seq<u8>>, n: nat) -> Seq<u8>
    decreases us.len(),
{
    if us.len() == 0 {
        Seq::empty()
    } else {
        prefix(us[0].len(), n) + us[0] + framed(us.skip(1), n)
    }
}

proof fn lemma_prefix(len: nat, n: nat)
    requires
        len < capacity(n),
    ensures
        prefix(len, n).len() == n,
        big_endian(prefix(len, n)) == len,
    decreases n,
{
    if n > 0 {
        lemma_prefix(len / 256, (n - 1) as nat);
        let p = prefix(len, n);
        assert(p.drop_last() =~= prefix(len / 256, (n - 1) as nat));
    }
}

/// Whatever units an encoder frames come out behind start codes, in order and
/// unchanged, after the parameter sets: none is empty and each length fits its
/// prefix. A few stray bytes at the end, too few for a prefix, are ignored.
pub proof fn law_units_survive(
    sets: Seq<Seq<u8>>,
    us: Seq<Seq<u8>>,
    n: nat,
    stray: Seq<u8>,
)
    requires
        stray.len() < n,
        forall|i: int| 0 <= i < us.len() ==> 0 < (#[trigger] us[i]).len() < capacity(n),
    ensures
        access_unit(sets, framed(us, n) + stray, n) == Some(annex_b_of(sets + us)),
{
    lemma_units_of_framed(us, n, stray);
}

proof fn lemma_units_of_framed(us: Seq<Seq<u8>>, n: nat, stray: Seq<u8>)
    requires
        stray.len() < n,
        forall|i: int| 0 <= i < us.len() ==> 0 < (#[trigger] us[i]).len() < capacity(n),
    ensures
        units(framed(us, n) + stray, n) == Some(us),
    decreases us.len(),
{
    let s = framed(us, n) + stray;
    if us.len() == 0 {
        assert(s =~= stray);
        assert(us =~= Seq::empty());
    } else {
        let rest = us.skip(1);
        lemma_units_of_framed(rest, n, stray);
        lemma_prefix(us[0].len(), n);
        let len = us[0].len();
        assert(s.take(n as int) =~= prefix(len, n));
        assert(s.subrange(n as int, (n + len) as int) =~= us[0]);
        assert(s.skip((n + len) as int) =~= framed(rest, n) + stray);
        assert(seq![us[0]] + rest =~= us);
    }
}

/// The samples that are keyframes, by the mark that says that one depends on others.
pub open spec fn keyframe(not_sync_mark: Option<bool>) -> bool {
    not_sync_mark != Some(true)
}

/// Whether a sample is a keyframe: the mark that says it depends on others is
/// absent or false, or there are no marks at all.
pub fn is_keyframe(not_sync_mark: Option<bool>) -> (r: bool)
    ensures
        r == keyframe(not_sync_mark),
        r == (not_sync_mark != Some(true)),
{
    match not_sync_mark {
        Some(marked) => !marked,
        None => true,
    }
}

/// The parameter sets that a sample carries: a keyframe carries them all, any
/// other sample none.
pub open spec fn sets_for(not_sync_mark: Option<bool>, sets: Seq<Seq<u8>>) -> Seq<Seq<u8>> {
    if not_sync_mark != Some(true) {
        sets
    } else {
        Seq::empty()
    }
}

/// Turn an encoder's sample into an access unit: the parameter sets exactly where
/// it is a keyframe, then the units of its data. `Err` where the data is not
/// framed as it should be.
pub fn unit_for_sample(
    not_sync_mark: Option<bool>,
    parameter_sets: &Vec<Vec<u8>>,
    avcc: &[u8],
    nal_len_size: usize,
) -> (r: Result<Vec<u8>, String>)
    requires
        nal_len_size <= 4,
    ensures
        match r {
            Ok(out) => access_unit(
                sets_for(not_sync_mark, sets_view(parameter_sets@)),
                avcc@,
                nal_len_size as nat,
            ) == Some(out@),
            Err(e) => access_unit(
                sets_for(not_sync_mark, sets_view(parameter_sets@)),
                avcc@,
                nal_len_size as nat,
            ) is None && e@ == "corrupt AVCC framing"@,
        },
{
    if is_keyframe(not_sync_mark) {
        annex_b(parameter_sets, avcc, nal_len_size)
    } else {
        let none: Vec<Vec<u8>> = Vec::new();
        assert(sets_view(none@) =~= Seq::empty());
        annex_b(&none, avcc, nal_len_size)
    }
}

/// A 32-bit pattern as a signed number.
pub open spec fn signed32(n: u32) -> int {
    if n < 0x8000_0000 {
        n as int
    } else {
        n - 0x1_0000_0000
    }
}

/// Kilobits per second as the signed bits per second an encoder takes,
/// saturating.
pub open spec fn bps_for(kbps: u32) -> int {
    let wide = 1000 * signed32(kbps);
    if wide > i32::MAX {
        i32::MAX as int
    } else if wide < i32::MIN {
        i32::MIN as int
    } else {
        wide
    }
}

pub fn bitrate_bps(kbps: u32) -> (r: i32)
    ensures
        r == bps_for(kbps),
{
    let signed: i64 = if kbps < 0x8000_0000 {
        kbps as i64
    } else {
        kbps as i64 - 0x1_0000_0000
    };
    let wide: i64 = 1000 * signed;
    if wide > 0x7fff_ffff {
        0x7fff_ffff
    } else if wide < -0x8000_0000 {
        -0x8000_0000
    } else {
        wide as i32
    }
}

/// What an encoder session is set to, and where its clock stands.
#[derive(Debug, Clone, Copy, PartialEq, Eq)]
pub struct EncoderState {
    /// The size of the open session, if one is open.
    pub open: Option<(u32, u32)>,
    pub bitrate_bps: i32,
    pub frame_index: i64,
}

/// An encoder that has no session yet.
pub open spec fn started(bitrate_kbps: u32) -> EncoderState {
    EncoderState { open: None, bitrate_bps: bps_for(bitrate_kbps) as i32, frame_index: 0 }
}

/// A frame of a size is to be encoded: the encoder afterwards, and whether a new session
/// is needed.
pub open spec fn session_ensured(s: EncoderState, width: u32, height: u32) -> (EncoderState, bool) {
    if s.open == Some((width, height)) {
        (s, false)
    } else {
        (EncoderState { open: None, ..s }, true)
    }
}

/// A session of a size was opened: the encoder afterwards.
pub open spec fn session_open(s: EncoderState, width: u32, height: u32) -> EncoderState {
    EncoderState { open: Some((width, height)), ..s }
}

/// A bitrate is asked for: the encoder afterwards, and what to apply to the session.
pub open spec fn retuned(s: EncoderState, kbps: u32) -> (EncoderState, Option<i32>) {
    if kbps != 0 && bps_for(kbps) != s.bitrate_bps {
        (
            EncoderState { bitrate_bps: bps_for(kbps) as i32, ..s },
            Some(bps_for(kbps) as i32),
        )
    } else {
        (s, None)
    }
}

/// A frame is to be stamped: the encoder afterwards, and the stamp.
pub open spec fn stamped(s: EncoderState) -> (EncoderState, int) {
    (
        EncoderState { frame_index: (s.frame_index + 1) as i64, ..s },
        s.frame_index * PTS_STEP,
    )
}

impl EncoderState {
    pub fn new(bitrate_kbps: u32) -> (r: Self)
        ensures
            r == started(bitrate_kbps),
            r.open is None,
            r.bitrate_bps == bps_for(bitrate_kbps),
            r.frame_index == 0,
    {
        EncoderState { open: None, bitrate_bps: bitrate_bps(bitrate_kbps), frame_index: 0 }
    }

    /// Whether a frame of this size needs a new session. The old one, if any,
    /// is to be dropped first.
    pub fn ensure_session(&mut self, width: u32, height: u32) -> (create: bool)
        ensures
            (*final(self), create) == session_ensured(*old(self), width, height),
            create == (old(self).open != Some((width, height))),
            *final(self) == (EncoderState {
                open: if create {
                    None
                } else {
                    old(self).open
                },
                ..*old(self)
            }),
    {
        match self.open {
            Some((w, h)) => if w == width && h == height {
                return false;
            },
            None => {},
        }
        self.open = None;
        true
    }

    /// A session of this size is open.
    pub fn session_opened(&mut self, width: u32, height: u32)
        ensures
            *final(self) == session_open(*old(self), width, height),
            *final(self) == (EncoderState { open: Some((width, height)), ..*old(self) }),
    {
        self.open = Some((width, height));
    }

    /// Retune the average bitrate; the new value where it changed, to be applied
    /// to the open session. Zero means to leave it.
    pub fn set_bitrate(&mut self, kbps: u32) -> (apply: Option<i32>)
        ensures
            (*final(self), apply) == retuned(*old(self), kbps),
            ({
                let changed = kbps != 0 && bps_for(kbps) != old(self).bitrate_bps;
                &&& apply == if changed {
                    Some(bps_for(kbps) as i32)
                } else {
                    None
                }
                &&& *final(self) == if changed {
                    EncoderState { bitrate_bps: bps_for(kbps) as i32, ..*old(self) }
                } else {
                    *old(self)
                }
            }),
    {
        if kbps == 0 {
            return None;  // never clamp the live session to 0 bps
        }
        let bps: i32 = bitrate_bps(kbps);
        if bps == self.bitrate_bps {
            return None;
        }
        self.bitrate_bps = bps;
        Some(bps)
    }

    /// The time stamp of the next frame, in ticks of the 90 kHz clock.
    pub fn next_pts(&mut self) -> (pts: i64)
        requires
            0 <= old(self).frame_index,
            old(self).frame_index * PTS_STEP <= i64::MAX,
        ensures
            (*final(self), pts as int) == stamped(*old(self)),
            pts == old(self).frame_index * PTS_STEP,
            *final(self) == (EncoderState {
                frame_index: (old(self).frame_index + 1) as i64,
                ..*old(self)
            }),
    {
        let pts: i64 = self.frame_index * PTS_STEP;
        assert(self.frame_index < i64::MAX) by (nonlinear_arith)
            requires
                self.frame_index * PTS_STEP <= i64::MAX,
                PTS_STEP == 3_000,
        ;
        self.frame_index = self.frame_index + 1;
        pts
    }
}

} // verus!
