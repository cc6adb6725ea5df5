//! Slots counted.

use vstd::prelude::*;

use super::{Admission, SlotsModel};

verus! {

/// A peer on the allowlist takes one slot while fewer than all are taken, and is turned
/// away while all are; the end of a session gives one back. How many there are never
/// changes.
pub proof fn law_slots_are_counted(s: SlotsModel)
    requires
        s.taken <= s.cap,
    ensures
        s.taken < s.cap ==> s.connected(true).1 == Admission::Enter && s.connected(true).0.taken
            == s.taken + 1,
        s.taken == s.cap ==> s.connected(true).1 == Admission::Full && s.connected(true).0.taken
            == s.taken,
        s.connected(false).1 == Admission::NotAllowed && s.connected(false).0.taken == s.taken,
        s.connected(true).0.cap == s.cap,
        s.connected(false).0.cap == s.cap,
        s.entered().1 <==> s.taken < s.cap,
        s.entered().0.taken == if s.taken < s.cap {
            s.taken + 1
        } else {
            s.taken as int
        },
        s.entered().0.cap == s.cap,
        s.taken > 0 ==> s.left().taken == s.taken - 1 && s.left().cap == s.cap,
{
}

} // verus!
