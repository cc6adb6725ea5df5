//! Access units byte by byte, and an encoder's settings in numbers.

use vstd::prelude::*;

use super::{
    access_unit, annex_b_of, big_endian, bps_for, keyframe, retuned, session_ensured, session_open,
    sets_for, stamped, started, units, EncoderState, FPS, KEYFRAME_INTERVAL_FRAMES,
};

verus! {

/// The start-code form: nothing for no units, and for one more unit the bytes 0, 0, 0, 1
/// and the unit behind what was there.
pub proof fn law_start_codes(us: Seq<Seq<u8>>, u: Seq<u8>)
    ensures
        annex_b_of(Seq::empty()) == Seq::<u8>::empty(),
        annex_b_of(seq![u]) == seq![0u8, 0, 0, 1] + u,
        annex_b_of(us.push(u)) == annex_b_of(us) + seq![0u8, 0, 0, 1] + u,
{
    assert(us.push(u).drop_last() =~= us);
    assert(seq![u].drop_last() =~= Seq::<Seq<u8>>::empty());
    assert(annex_b_of(Seq::empty()) =~= Seq::<u8>::empty());
    assert(annex_b_of(seq![u].drop_last()) =~= Seq::<u8>::empty());
    assert(annex_b_of(seq![u]) =~= seq![0u8, 0, 0, 1] + u);
}

/// The length-prefixed form is read from the front: a length of as many bytes as the
/// prefix has, the highest first, and that many bytes of unit. A length of zero, and one
/// that runs past the end, is corrupt; fewer bytes than a prefix are no unit.
pub proof fn law_length_prefixes(s: Seq<u8>, n: nat)
    requires
        n <= 4,
    ensures
        s.len() < n ==> units(s, n) == Some(Seq::<Seq<u8>>::empty()),
        s.len() >= n ==> {
            let len = if n == 0 {
                0int
            } else if n == 1 {
                s[0] as int
            } else if n == 2 {
                256 * s[0] + s[1]
            } else if n == 3 {
                65536 * s[0] + 256 * s[1] + s[2]
            } else {
                16777216 * s[0] + 65536 * s[1] + 256 * s[2] + s[3]
            };
            if len == 0 || n + len > s.len() {
                units(s, n) is None
            } else {
                match units(s.skip(n + len), n) {
                    None => units(s, n) is None,
                    Some(rest) => units(s, n) == Some(seq![s.subrange(n as int, n + len)] + rest),
                }
            }
        },
{
    if s.len() >= n {
        reveal_with_fuel(big_endian, 5);
        if n >= 1 {
            assert(s.take(n as int).drop_last() =~= s.take(n - 1));
        }
        if n >= 2 {
            assert(s.take(n - 1).drop_last() =~= s.take(n - 2));
        }
        if n >= 3 {
            assert(s.take(n - 2).drop_last() =~= s.take(n - 3));
        }
        if n >= 4 {
            assert(s.take(n - 3).drop_last() =~= s.take(n - 4));
        }
    }
}

proof fn lemma_annex_b_joins(a: Seq<Seq<u8>>, b: Seq<Seq<u8>>)
    ensures
        annex_b_of(a + b) == annex_b_of(a) + annex_b_of(b),
    decreases b.len(),
{
    if b.len() == 0 {
        assert(a + b =~= a);
        assert(annex_b_of(a) + annex_b_of(b) =~= annex_b_of(a));
    } else {
        lemma_annex_b_joins(a, b.drop_last());
        assert((a + b).drop_last() =~= a + b.drop_last());
        assert(annex_b_of(a + b) =~= annex_b_of(a) + annex_b_of(b));
    }
}

/// A keyframe, and only a keyframe, carries its parameter sets, ahead of its units. A
/// sample is a keyframe unless it is marked as depending on others.
pub proof fn law_keyframes_carry_parameter_sets(
    mark: Option<bool>,
    sets: Seq<Seq<u8>>,
    avcc: Seq<u8>,
    n: nat,
)
    ensures
        keyframe(None),
        keyframe(Some(false)),
        !keyframe(Some(true)),
        keyframe(mark) ==> access_unit(sets_for(mark, sets), avcc, n) == match units(avcc, n) {
            None => None,
            Some(us) => Some(annex_b_of(sets) + annex_b_of(us)),
        },
        !keyframe(mark) ==> access_unit(sets_for(mark, sets), avcc, n) == match units(avcc, n) {
            None => None,
            Some(us) => Some(annex_b_of(us)),
        },
{
    if let Some(us) = units(avcc, n) {
        lemma_annex_b_joins(sets, us);
        assert(Seq::<Seq<u8>>::empty() + us =~= us);
    }
}

/// An encoder takes a thousand bits for a kilobit, up to the largest number it can hold;
/// numbers of kilobits that it reads as negative come out negative in the same way.
pub proof fn law_kilobits_are_thousands(kbps: u32)
    ensures
        kbps <= 2_147_483 ==> bps_for(kbps) == 1000 * kbps,
        2_147_483 < kbps <= 0x7fff_ffff ==> bps_for(kbps) == 0x7fff_ffff,
        kbps > 0x7fff_ffff && 0x1_0000_0000 - kbps <= 2_147_483 ==> bps_for(kbps) == 1000 * (kbps
            - 0x1_0000_0000),
        kbps > 0x7fff_ffff && 0x1_0000_0000 - kbps > 2_147_483 ==> bps_for(kbps) == -0x8000_0000,
{
}

/// An encoder starts without a session, at the bitrate given and at frame 0. A frame of
/// the open session's size uses that session; any other needs a new one, and none is
/// open until then. Neither touches bitrate or clock.
pub proof fn law_sessions_follow_the_size(s: EncoderState, width: u32, height: u32, kbps: u32)
    ensures
        started(kbps).open is None,
        started(kbps).bitrate_bps == bps_for(kbps),
        started(kbps).frame_index == 0,
        ({
            let (after, create) = session_ensured(s, width, height);
            &&& create <==> !(s.open matches Some((w, h)) && w == width && h == height)
            &&& create ==> after.open is None
            &&& !create ==> after.open == s.open
            &&& after.bitrate_bps == s.bitrate_bps
            &&& after.frame_index == s.frame_index
        }),
{
}

/// A new bitrate is applied exactly where it is not zero and not the one that is set; it
/// is then the one that is set.
pub proof fn law_bitrates_are_applied_on_change(s: EncoderState, kbps: u32)
    ensures
        ({
            let (after, apply) = retuned(s, kbps);
            &&& kbps == 0 ==> apply is None
            &&& bps_for(kbps) == s.bitrate_bps ==> apply is None
            &&& kbps != 0 && bps_for(kbps) != s.bitrate_bps ==> apply is Some && apply->0
                == bps_for(kbps)
            &&& after.bitrate_bps == if apply is Some {
                apply->0
            } else {
                s.bitrate_bps
            }
            &&& after.open == s.open
            &&& after.frame_index == s.frame_index
        }),
{
}

/// Frames are 3000 ticks apart from 0 on, thirty to the second of the 90 kHz clock.
pub proof fn law_frames_are_evenly_spaced(s: EncoderState)
    requires
        0 <= s.frame_index,
        3000 * (s.frame_index + 1) <= i64::MAX,
    ensures
        ({
            let (one, first) = stamped(s);
            let second = stamped(one).1;
            &&& s.frame_index == 0 ==> first == 0
            &&& first == 3000 * s.frame_index
            &&& second - first == 3000
            &&& 30 * (second - first) == 90_000
            &&& one.open == s.open && one.bitrate_bps == s.bitrate_bps
        }),
{
}

/// A session that was opened for a size serves frames of that size; opening it touches
/// neither bitrate nor clock. Keyframes come every 60 frames at 30 frames a second.
pub proof fn law_opened_sessions_serve(s: EncoderState, width: u32, height: u32)
    ensures
        session_open(s, width, height).open == Some((width, height)),
        session_open(s, width, height).bitrate_bps == s.bitrate_bps,
        session_open(s, width, height).frame_index == s.frame_index,
        !session_ensured(session_open(s, width, height), width, height).1,
        KEYFRAME_INTERVAL_FRAMES == 60,
        FPS == 30,
{
}

} // verus!
