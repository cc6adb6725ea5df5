//! Frames, and the displays they are captured from.

use bytes::Bytes;
use vstd::prelude::*;

use crate::buffers::bytes_of;
use crate::protocol::{Codec, FrameData, Message, MessageModel, Resolution};
use crate::text::{decimal, push_numeral};

pub mod laws;

verus! {

/// One captured frame, 32-bit BGRA. Rows may be padded: use `bytes_per_row`
/// (not `width * 4`) to address rows; encoders receive it as the pitch.
#[derive(Debug, Clone)]
pub struct RawFrame {
    pub width: u32,
    pub height: u32,
    pub bytes_per_row: usize,
    pub bgra: Vec<u8>,
    pub timestamp_micros: u64,
}

/// One encoded frame ready for the wire. Cheap to clone (payload is refcounted).
#[derive(Debug, Clone)]
pub struct EncodedFrame {
    pub codec: Codec,
    pub seq: u32,
    pub timestamp_micros: u64,
    pub payload: Bytes,
}

impl EncodedFrame {
    /// The message that carries the frame.
    pub open spec fn message(self) -> MessageModel {
        MessageModel::FrameData {
            codec: self.codec,
            seq: self.seq,
            timestamp_micros: self.timestamp_micros,
            payload: bytes_of(self.payload),
        }
    }

    pub fn into_message(self) -> (r: Message)
        ensures
            r@ == self.message(),
    {
        Message::FrameData(
            FrameData {
                codec: self.codec,
                seq: self.seq,
                timestamp_micros: self.timestamp_micros,
                payload: self.payload,
            },
        )
    }
}

/// A display of the host.
#[derive(Debug, Clone, PartialEq, Eq)]
pub struct DisplayInfo {
    pub id: u32,
    pub width: u32,
    pub height: u32,
    pub active: bool,
    pub name: String,
}

/// A display as a value.
#[verifier::ext_equal]
pub struct DisplayModel {
    pub id: u32,
    pub width: u32,
    pub height: u32,
    pub active: bool,
    pub name: Seq<char>,
}

impl View for DisplayInfo {
    type V = DisplayModel;

    open spec fn view(&self) -> DisplayModel {
        DisplayModel {
            id: self.id,
            width: self.width,
            height: self.height,
            active: self.active,
            name: self.name@,
        }
    }
}

/// A list of displays as a value.
pub open spec fn displays_view(v: Seq<DisplayInfo>) -> Seq<DisplayModel> {
    v.map_values(|d: DisplayInfo| d@)
}

/// A display and its native size in pixels.
#[derive(Debug, Clone, Copy, PartialEq, Eq, Structural)]
pub struct DisplaySize {
    pub id: u32,
    pub width: u32,
    pub height: u32,
}

/// Platform screen capture. Implementations are pull-based: `next_frame` blocks
/// until the next frame is available.
pub trait ScreenCapturer: Send {
    fn resolution(&self) -> Resolution;

    fn next_frame(&mut self) -> Result<RawFrame, String>;

    /// The displays this capturer can target, with `active` marking the one it
    /// is currently capturing. Default: a single unnamed display from the
    /// current resolution (fine for fakes and single-display platforms).
    fn displays(&self) -> (v: Vec<DisplayInfo>)
        default_ensures
            exists|r: Resolution|
                call_ensures(Self::resolution, (self,), r) && displays_view(v@)
                    == #[trigger] one_display(0, r),
    {
        let r: Resolution = self.resolution();
        single_display(0, r)
    }

    /// Switch the active capture to `id`. Default: only the implicit id 0 is
    /// valid (single-display platforms).
    fn switch_display(&mut self, id: u32) -> (r: Result<(), String>)
        default_ensures
            &*final(self) == &*old(self),
            match r {
                Ok(()) => sole_display(id) && id == 0,
                Err(e) => !sole_display(id) && id != 0 && e@ == not_available_text(id),
            },
    {
        if id == 0 {
            Ok(())
        } else {
            Err(not_available(id))
        }
    }
}

/// Frame encoder, selected at startup.
pub trait FrameEncoder: Send {
    fn codec(&self) -> Codec;

    fn encode(&mut self, frame: &RawFrame) -> Result<Bytes, String>;

    /// Update the target bitrate (kbps) at runtime. No-op for codecs without a
    /// rate control knob (JPEG); overridden by H.264.
    fn set_bitrate(&mut self, _kbps: u32)
        default_ensures
            &*final(self) == &*old(self),
    {
    }
}

/// The id of the display of a platform that has only one.
pub open spec fn sole_display(id: u32) -> bool {
    id == 0
}

/// One display of a size, unnamed and active.
pub open spec fn one_display(id: u32, r: Resolution) -> Seq<DisplayModel> {
    seq![
        DisplayModel { id, width: r.width, height: r.height, active: true, name: "Display"@ },
    ]
}

/// One display, unnamed and active.
pub fn single_display(id: u32, r: Resolution) -> (v: Vec<DisplayInfo>)
    ensures
        displays_view(v@) == one_display(id, r),
{
    let mut v: Vec<DisplayInfo> = Vec::new();
    v.push(
        DisplayInfo {
            id,
            width: r.width,
            height: r.height,
            active: true,
            name: "Display".to_owned(),
        },
    );
    assert(displays_view(v@) =~= one_display(id, r));
    v
}

/// The refusal of a display that is not there, in words.
pub open spec fn not_available_text(id: u32) -> Seq<char> {
    "display "@ + decimal(id as nat) + " not available"@
}

/// The refusal of a display that is not there.
pub fn not_available(id: u32) -> (e: String)
    ensures
        e@ == not_available_text(id),
{
    let mut e: String = "display ".to_owned();
    push_numeral(&mut e, id as u64, 10);
    e.append(" not available");
    e
}

/// Displays in the order of their ids.
pub open spec fn sorted(s: Seq<DisplaySize>) -> bool {
    forall|i: int, j: int| 0 <= i < j < s.len() ==> (#[trigger] s[i]).id <= (#[trigger] s[j]).id
}

/// How displays are announced: named by their place, the captured one active.
pub open spec fn announced(s: Seq<DisplaySize>, current: u32) -> Seq<DisplayModel> {
    Seq::new(
        s.len(),
        |i: int|
            DisplayModel {
                id: s[i].id,
                width: s[i].width,
                height: s[i].height,
                active: s[i].id == current,
                name: "Display "@ + decimal((i + 1) as nat),
            },
    )
}

/// Whether a list announces some displays: all of them, in the order of their ids.
pub open spec fn lists(displays: Seq<DisplaySize>, current: u32, r: Seq<DisplayModel>) -> bool {
    exists|s: Seq<DisplaySize>|
        sorted(s) && s.to_multiset() == displays.to_multiset() && r == #[trigger] announced(
            s,
            current,
        )
}

/// Put a display in its place in a list that is in order.
fn insert_sorted(v: &mut Vec<DisplaySize>, d: DisplaySize)
    requires
        sorted(old(v)@),
    ensures
        sorted(final(v)@),
        final(v)@.len() == old(v)@.len() + 1,
        final(v)@.to_multiset() == old(v)@.to_multiset().insert(d),
{
    let mut at: usize = 0;
    while at < v.len() && v[at].id <= d.id
        invariant
            at <= v@.len(),
            v@ == old(v)@,
            forall|i: int| 0 <= i < at ==> (#[trigger] v@[i]).id <= d.id,
        decreases v@.len() - at,
    {
        at += 1;
    }
    let ghost before = v@;
    v.insert(at, d);
    proof {
        vstd::seq_lib::to_multiset_insert(before, at as int, d);
        assert(v@ == before.insert(at as int, d));
        assert forall|i: int, j: int| 0 <= i < j < v@.len() implies (#[trigger] v@[i]).id <= (
        #[trigger] v@[j]).id by {
            let bi = if i < at {
                i
            } else {
                i - 1
            };
            let bj = if j < at {
                j
            } else {
                j - 1
            };
            if i != at {
                assert(v@[i] == before[bi]);
            }
            if j != at {
                assert(v@[j] == before[bj]);
            }
            if i == at {
                assert(before[at as int].id <= before[bj].id || bj == at);
            }
        }
    }
}

/// List the displays: in the order of their ids (stable ordinal naming), the
/// one that is captured marked.
pub fn list_displays(displays: &Vec<DisplaySize>, current: u32) -> (r: Vec<DisplayInfo>)
    ensures
        lists(displays@, current, displays_view(r@)),
        exists|s: Seq<DisplaySize>|
            sorted(s) && s.to_multiset() == displays@.to_multiset() && displays_view(r@)
                == #[trigger] announced(s, current),
{
    let mut ordered: Vec<DisplaySize> = Vec::new();
    let mut i: usize = 0;
    assert(ordered@ =~= displays@.take(0));
    while i < displays.len()
        invariant
            i <= displays@.len(),
            sorted(ordered@),
            ordered@.len() == i,
            ordered@.to_multiset() == displays@.take(i as int).to_multiset(),
        decreases displays@.len() - i,
    {
        insert_sorted(&mut ordered, displays[i]);
        proof {
            let front = displays@.take(i as int);
            assert(displays@.take(i as int + 1) =~= front.push(displays@[i as int]));
            vstd::seq_lib::to_multiset_build(front, displays@[i as int]);
        }
        i += 1;
    }
    assert(displays@.take(i as int) =~= displays@);
    let ghost s = ordered@;
    let mut r: Vec<DisplayInfo> = Vec::new();
    let mut k: usize = 0;
    while k < ordered.len()
        invariant
            k <= ordered@.len(),
            s == ordered@,
            ordered@.len() == displays@.len(),
            displays_view(r@) == announced(s, current).take(k as int),
        decreases ordered@.len() - k,
    {
        let d: DisplaySize = ordered[k];
        let mut name: String = "Display ".to_owned();
        push_numeral(&mut name, k as u64 + 1, 10);
        let info: DisplayInfo = DisplayInfo {
            id: d.id,
            width: d.width,
            height: d.height,
            active: d.id == current,
            name,
        };
        let ghost so_far = displays_view(r@);
        r.push(info);
        proof {
            let all = announced(s, current);
            assert(displays_view(r@) =~= so_far.push(info@));
            assert(info@ == all[k as int]);
            assert(all.take(k as int + 1) =~= all.take(k as int).push(all[k as int]));
        }
        k += 1;
    }
    assert(announced(s, current).take(k as int) =~= announced(s, current));
    r
}

/// The display to capture: the main one where it is there, else the first.
pub open spec fn picked(ids: Seq<u32>, main_id: u32) -> Option<u32> {
    if ids.contains(main_id) {
        Some(main_id)
    } else if ids.len() > 0 {
        Some(ids[0])
    } else {
        None
    }
}

/// The display to capture: the main one where it is there, else the first.
pub fn pick_display(ids: &[u32], main_id: u32) -> (r: Option<u32>)
    ensures
        r == picked(ids@, main_id),
        r == if ids@.contains(main_id) {
            Some(main_id)
        } else if ids@.len() > 0 {
            Some(ids@[0])
        } else {
            None
        },
{
    let mut i: usize = 0;
    while i < ids.len()
        invariant
            i <= ids@.len(),
            forall|j: int| 0 <= j < i ==> ids@[j] != main_id,
        decreases ids@.len() - i,
    {
        if ids[i] == main_id {
            return Some(main_id);
        }
        i += 1;
    }
    if ids.len() > 0 {
        Some(ids[0])
    } else {
        None
    }
}

/// What to do about a display that a controller selects.
#[derive(Debug, Clone, Copy, PartialEq, Eq, Structural)]
pub enum SwitchStep {
    /// It is the one being captured.
    Stay,
    Switch,
    NotAvailable,
}

/// What a selection comes to.
pub open spec fn planned(current: u32, ids: Seq<u32>, id: u32) -> SwitchStep {
    if id == current {
        SwitchStep::Stay
    } else if ids.contains(id) {
        SwitchStep::Switch
    } else {
        SwitchStep::NotAvailable
    }
}

/// Decide on a switch: to a display that is there and not the current one.
pub fn plan_switch(current: u32, ids: &[u32], id: u32) -> (r: SwitchStep)
    ensures
        r == planned(current, ids@, id),
        r == if id == current {
            SwitchStep::Stay
        } else if ids@.contains(id) {
            SwitchStep::Switch
        } else {
            SwitchStep::NotAvailable
        },
{
    if id == current {
        return SwitchStep::Stay;
    }
    let mut i: usize = 0;
    while i < ids.len()
        invariant
            i <= ids@.len(),
            id != current,
            forall|j: int| 0 <= j < i ==> ids@[j] != id,
        decreases ids@.len() - i,
    {
        if ids[i] == id {
            return SwitchStep::Switch;
        }
        i += 1;
    }
    SwitchStep::NotAvailable
}

} // verus!
