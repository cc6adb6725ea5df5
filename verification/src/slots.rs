//! Who may connect: peers on the allowlist, up to a number of controllers at
//! once over both transports.

use vstd::prelude::*;

use crate::config::{ip_allowed, IpAddr};

pub mod laws;

verus! {

/// The sessions that may run at once, and how many do.
#[derive(Debug)]
pub struct ControllerSlots {
    cap: usize,
    taken: usize,
}

/// The slots as a value.
pub struct SlotsModel {
    pub cap: usize,
    pub taken: usize,
}

impl View for ControllerSlots {
    type V = SlotsModel;

    closed spec fn view(&self) -> SlotsModel {
        SlotsModel { cap: self.cap, taken: self.taken }
    }
}

/// What becomes of a connection.
#[derive(Debug, Clone, Copy, PartialEq, Eq, Structural)]
pub enum Admission {
    /// Dropped: the peer is not on the allowlist.
    NotAllowed,
    /// Dropped: every slot is taken.
    Full,
    /// A session starts and holds a slot until it ends.
    Enter,
}

impl SlotsModel {
    /// Never more sessions than slots.
    pub open spec fn within_cap(self) -> bool {
        self.taken <= self.cap
    }

    /// What a session that asks for a slot finds.
    pub open spec fn entered(self) -> (SlotsModel, bool) {
        if self.taken < self.cap {
            (SlotsModel { taken: (self.taken + 1) as usize, ..self }, true)
        } else {
            (self, false)
        }
    }

    /// A session has ended.
    pub open spec fn left(self) -> SlotsModel {
        SlotsModel { taken: (self.taken - 1) as usize, ..self }
    }

    /// What becomes of a connection: the allowlist is asked first, so a peer
    /// that is not on it never holds a slot.
    pub open spec fn connected(self, allowed: bool) -> (SlotsModel, Admission) {
        if !allowed {
            (self, Admission::NotAllowed)
        } else if self.entered().1 {
            (self.entered().0, Admission::Enter)
        } else {
            (self, Admission::Full)
        }
    }
}

impl ControllerSlots {
    pub closed spec fn wf(&self) -> bool {
        self@.within_cap()
    }

    pub fn new(cap: usize) -> (r: Self)
        ensures
            r.wf(),
            r@ == (SlotsModel { cap, taken: 0 }),
    {
        ControllerSlots { cap, taken: 0 }
    }

    /// Take a slot, if one is free.
    pub fn enter(&mut self) -> (r: bool)
        requires
            old(self).wf(),
        ensures
            final(self).wf(),
            (final(self)@, r) == old(self)@.entered(),
    {
        if self.taken < self.cap {
            self.taken = self.taken + 1;
            true
        } else {
            false
        }
    }

    /// Decide on a connection from a peer.
    pub fn connect(&mut self, allow: &[IpAddr], peer: IpAddr) -> (r: Admission)
        requires
            old(self).wf(),
        ensures
            final(self).wf(),
            (final(self)@, r) == old(self)@.connected(allow@.contains(peer)),
    {
        if !ip_allowed(allow, peer) {
            Admission::NotAllowed
        } else if self.enter() {
            Admission::Enter
        } else {
            Admission::Full
        }
    }

    /// A session has ended: its slot is free.
    pub fn leave(&mut self)
        requires
            old(self).wf(),
            old(self)@.taken > 0,
        ensures
            final(self).wf(),
            final(self)@ == old(self)@.left(),
    {
        self.taken = self.taken - 1;
    }
}

/// What happens to the slots.
pub enum SlotEvent {
    /// A peer connects; whether it is on the allowlist.
    Connect { allowed: bool },
    /// A session ends.
    Leave,
}

/// The slots after some events; an end without a session is none.
pub open spec fn after_events(s: SlotsModel, events: Seq<SlotEvent>) -> SlotsModel
    decreases events.len(),
{
    if events.len() == 0 {
        s
    } else {
        let before = after_events(s, events.drop_last());
        match events.last() {
            SlotEvent::Connect { allowed } => before.connected(allowed).0,
            SlotEvent::Leave => if before.taken > 0 {
                before.left()
            } else {
                before
            },
        }
    }
}

/// Whatever peers do, there are never more sessions than slots.
pub proof fn law_never_over_the_cap(cap: usize, events: Seq<SlotEvent>)
    ensures
        after_events(SlotsModel { cap, taken: 0 }, events).within_cap(),
        after_events(SlotsModel { cap, taken: 0 }, events).cap == cap,
    decreases events.len(),
{
    if events.len() > 0 {
        law_never_over_the_cap(cap, events.drop_last());
    }
}

/// An allowed peer is refused only while every slot is taken, and the end of any
/// session makes room for the next.
pub proof fn law_a_freed_slot_is_free(s: SlotsModel)
    requires
        s.within_cap(),
    ensures
        s.connected(true).1 == Admission::Full <==> s.taken == s.cap,
        s.taken > 0 ==> s.left().connected(true) == (s, Admission::Enter),
{
}

/// A peer that is not on the allowlist changes nothing.
pub proof fn law_only_allowed_peers_enter(s: SlotsModel)
    ensures
        s.connected(false) == (s, Admission::NotAllowed),
{
}

} // verus!
