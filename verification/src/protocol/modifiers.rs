//! Modifier bitmask carried on key events. Modifier keys also arrive as their
//! own KeyDown/KeyUp events; the mask is informational/diagnostic.

use vstd::prelude::*;

verus! {

pub const SHIFT: u8 = 0b0001;

pub const CTRL: u8 = 0b0010;

pub const ALT: u8 = 0b0100;

pub const META: u8 = 0b1000;

} // verus!
