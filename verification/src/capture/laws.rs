//! How displays are listed, picked and switched.

use vstd::prelude::*;

use super::{
    announced, displays_view, lists, not_available_text, one_display, picked, planned, sole_display,
    sorted, DisplayInfo, DisplaySize, EncodedFrame, SwitchStep,
};
use crate::buffers::bytes_of;
use crate::protocol::{MessageModel, Resolution};
use crate::text::decimal;

verus! {

/// The list of displays, whatever order they were found in: all of them and no others,
/// each with its own size, by ascending id, named after their places from 1 on, and
/// active exactly where the id is the one being captured.
pub proof fn law_displays_are_listed(
    displays: Vec<DisplaySize>,
    current: u32,
    r: Vec<DisplayInfo>,
    i: int,
    j: int,
    d: DisplaySize,
)
    requires
        lists(displays@, current, displays_view(r@)),
        0 <= i < r@.len(),
    ensures
        r@.len() == displays@.len(),
        displays@.contains(
            DisplaySize { id: r@[i].id, width: r@[i].width, height: r@[i].height },
        ),
        r@[i].active <==> r@[i].id == current,
        r@[i].name@ == "Display "@ + decimal((i + 1) as nat),
        i < j < r@.len() ==> r@[i].id <= r@[j].id,
        displays@.contains(d) ==> exists|k: int|
            0 <= k < r@.len() && (#[trigger] r@[k]).id == d.id && r@[k].width == d.width
                && r@[k].height == d.height,
{
    broadcast use vstd::seq_lib::group_to_multiset_ensures;

    let s = choose|s: Seq<DisplaySize>|
        sorted(s) && s.to_multiset() == displays@.to_multiset() && displays_view(r@)
            == #[trigger] announced(s, current);
    assert(displays_view(r@).len() == r@.len());
    assert(s.to_multiset().len() == s.len());
    assert(displays@.to_multiset().len() == displays@.len());
    assert(displays_view(r@)[i] == r@[i]@);
    assert(s.contains(s[i]));
    assert(s.to_multiset().count(s[i]) > 0);
    assert(displays@.contains(s[i]));
    if i < j < r@.len() {
        assert(displays_view(r@)[j] == r@[j]@);
        assert(s[i].id <= s[j].id);
    }
    if displays@.contains(d) {
        assert(displays@.to_multiset().count(d) > 0);
        assert(s.contains(d));
        let k = choose|k: int| 0 <= k < s.len() && s[k] == d;
        assert(displays_view(r@)[k] == r@[k]@);
        assert(r@[k].id == d.id);
    }
}

/// A platform with one display lists it under the given id, with the size of what is
/// captured, active and unnumbered.
pub proof fn law_one_display_is_active(id: u32, size: Resolution)
    ensures
        one_display(id, size).len() == 1,
        one_display(id, size)[0].id == id,
        one_display(id, size)[0].width == size.width,
        one_display(id, size)[0].height == size.height,
        one_display(id, size)[0].active,
        one_display(id, size)[0].name == "Display"@,
{
}

/// The main display is captured wherever it is there; otherwise the first one that is;
/// none only where there is none.
pub proof fn law_main_display_is_picked(ids: Seq<u32>, main_id: u32, i: int)
    ensures
        0 <= i < ids.len() && ids[i] == main_id ==> picked(ids, main_id) == Some(main_id),
        (forall|k: int| 0 <= k < ids.len() ==> #[trigger] ids[k] != main_id) && ids.len() > 0
            ==> picked(ids, main_id) == Some(ids[0]),
        ids.len() == 0 ==> picked(ids, main_id) is None,
        picked(ids, main_id) matches Some(id) ==> ids.contains(id),
{
    if 0 <= i < ids.len() && ids[i] == main_id {
        assert(ids.contains(main_id));
    }
    if ids.len() > 0 {
        assert(ids.contains(ids[0]));
    }
}

/// Selecting the display that is captured changes nothing, even where it is gone;
/// another one that is there is switched to; one that is not there is refused.
pub proof fn law_switches_are_planned(current: u32, ids: Seq<u32>, id: u32, i: int)
    ensures
        planned(current, ids, current) == SwitchStep::Stay,
        id != current && 0 <= i < ids.len() && ids[i] == id ==> planned(current, ids, id)
            == SwitchStep::Switch,
        id != current && (forall|k: int| 0 <= k < ids.len() ==> #[trigger] ids[k] != id)
            ==> planned(current, ids, id) == SwitchStep::NotAvailable,
{
    if 0 <= i < ids.len() && ids[i] == id {
        assert(ids.contains(id));
    }
}

/// Where there is one display only, id 0 names it and every other id is refused by its
/// number.
pub proof fn law_sole_display_is_zero(id: u32)
    ensures
        sole_display(id) <==> id == 0,
        not_available_text(id) == "display "@ + decimal(id as nat) + " not available"@,
{
}

/// Displays and frames stand for their own fields.
pub proof fn law_displays_hold_their_fields(d: DisplayInfo, f: EncodedFrame)
    ensures
        d@.id == d.id && d@.width == d.width && d@.height == d.height && d@.active == d.active
            && d@.name == d.name@,
        f.message() == (MessageModel::FrameData {
            codec: f.codec,
            seq: f.seq,
            timestamp_micros: f.timestamp_micros,
            payload: bytes_of(f.payload),
        }),
{
}

} // verus!
