//! What is posted for each input event, in terms of the event itself.

use vstd::prelude::*;

use super::{
    activity_is_due, at_rest, held_buttons, injected, is_double_click, let_go, mask_flags,
    modifier_of, Injection, InjectorState, Modifier, ModifierFlags, MouseAction,
};
use crate::keymap::laws::{law_control_keys, law_keys_are_distinct};
use crate::keymap::vk_for;
use crate::protocol::{InputEvent, MouseButton};

verus! {

/// The pointer goes where the controller sent it. Every move, press and release at
/// `(x, y)` posts one mouse event at that same `x` and `y` with the tracked
/// modifiers; a press and a release carry the event's own button.
pub proof fn law_pointer_events_post_their_place(
    s: InjectorState,
    button: MouseButton,
    x: u16,
    y: u16,
    near: bool,
)
    ensures
        injected(s, InputEvent::MouseMove { x, y }@, near).1 matches Injection::Mouse {
            action,
            x: at_x,
            y: at_y,
            click_state,
            flags,
            ..
        } && at_x == x && at_y == y && flags == s.flags && click_state is None && (action
            == MouseAction::Moved || action == MouseAction::Dragged),
        injected(s, InputEvent::MouseDown { button, x, y }@, near).1 matches Injection::Mouse {
            action,
            button: b,
            x: at_x,
            y: at_y,
            click_state,
            flags,
        } && at_x == x && at_y == y && b == button && action == MouseAction::Down && flags
            == s.flags && click_state is Some,
        injected(s, InputEvent::MouseUp { button, x, y }@, near).1 matches Injection::Mouse {
            action,
            button: b,
            x: at_x,
            y: at_y,
            click_state,
            flags,
        } && at_x == x && at_y == y && b == button && action == MouseAction::Up && flags == s.flags
            && click_state == Some(s.click_state),
{
}

/// A move drags the left button if it is held, else the right, else the middle; with
/// no button held it is a plain move. It changes nothing that is tracked.
pub proof fn law_moves_drag_by_rank(s: InjectorState, x: u16, y: u16, near: bool)
    ensures
        injected(s, InputEvent::MouseMove { x, y }@, near).0 == s,
        injected(s, InputEvent::MouseMove { x, y }@, near).1 matches Injection::Mouse {
            action,
            button,
            ..
        } && {
            &&& s.left ==> action == MouseAction::Dragged && button == MouseButton::Left
            &&& !s.left && s.right ==> action == MouseAction::Dragged && button
                == MouseButton::Right
            &&& !s.left && !s.right && s.middle ==> action == MouseAction::Dragged && button
                == MouseButton::Middle
            &&& !s.left && !s.right && !s.middle ==> action == MouseAction::Moved && button
                == MouseButton::Left
        },
{
}

/// Presses count: one that repeats the last button near to it is the next click, any
/// other the first. A release repeats the count of its press and leaves it.
pub proof fn law_clicks_count(s: InjectorState, button: MouseButton, x: u16, y: u16, near: bool)
    requires
        s.click_state < i64::MAX,
    ensures
        ({
            let (after, posted) = injected(s, InputEvent::MouseDown { button, x, y }@, near);
            let count = if near && s.last_button == Some(button) {
                s.click_state + 1
            } else {
                1
            };
            &&& after.click_state == count
            &&& after.last_button == Some(button)
            &&& after.flags == s.flags
            &&& posted matches Injection::Mouse { click_state: Some(n), .. } && n == count
        }),
        ({
            let after = injected(s, InputEvent::MouseUp { button, x, y }@, near).0;
            &&& after.click_state == s.click_state
            &&& after.last_button == s.last_button
            &&& after.flags == s.flags
        }),
{
}

/// A press holds its own button down and a release lets it go; the other two stay as
/// they were.
pub proof fn law_presses_and_releases_hold_one_button(
    s: InjectorState,
    button: MouseButton,
    x: u16,
    y: u16,
    near: bool,
)
    ensures
        ({
            let p = injected(s, InputEvent::MouseDown { button, x, y }@, near).0;
            let r = injected(s, InputEvent::MouseUp { button, x, y }@, near).0;
            match button {
                MouseButton::Left => {
                    &&& p.left && !r.left
                    &&& p.middle == s.middle && p.right == s.right
                    &&& r.middle == s.middle && r.right == s.right
                },
                MouseButton::Middle => {
                    &&& p.middle && !r.middle
                    &&& p.left == s.left && p.right == s.right
                    &&& r.left == s.left && r.right == s.right
                },
                MouseButton::Right => {
                    &&& p.right && !r.right
                    &&& p.left == s.left && p.middle == s.middle
                    &&& r.left == s.left && r.middle == s.middle
                },
            }
        }),
{
}

/// A scroll is posted against its direction on the wire, each axis by itself, and
/// changes nothing that is tracked.
pub proof fn law_scroll_is_turned_round(s: InjectorState, dx: i16, dy: i16, near: bool)
    ensures
        injected(s, InputEvent::Scroll { dx, dy }@, near).0 == s,
        injected(s, InputEvent::Scroll { dx, dy }@, near).1 matches Injection::Scroll {
            vertical,
            horizontal,
            flags,
        } && vertical + dy == 0 && horizontal + dx == 0 && flags == s.flags,
{
}

/// A key event posts the virtual key of its own code, down for a key going down and
/// up for one coming up, with every modifier that is tracked after it or that its
/// mask reports: bit 0 is shift, bit 1 control, bit 2 alternate, bit 3 command. It
/// touches no button and no click.
pub proof fn law_key_events_post_their_key(
    s: InjectorState,
    code: String,
    mask: u8,
    near: bool,
    down: bool,
)
    requires
        vk_for(code@) is Some,
    ensures
        ({
            let ev = if down {
                InputEvent::KeyDown { code, modifiers: mask }
            } else {
                InputEvent::KeyUp { code, modifiers: mask }
            };
            let (after, posted) = injected(s, ev@, near);
            &&& after == InjectorState { flags: after.flags, ..s }
            &&& posted matches Injection::Key { vk, down: d, flags } && {
                &&& Some(vk) == vk_for(code@)
                &&& d == down
                &&& flags.shift == (after.flags.shift || mask % 2 == 1)
                &&& flags.control == (after.flags.control || mask / 2 % 2 == 1)
                &&& flags.alternate == (after.flags.alternate || mask / 4 % 2 == 1)
                &&& flags.command == (after.flags.command || mask / 8 % 2 == 1)
            }
        }),
{
    assert((mask & 1 != 0) == (mask % 2 == 1) && (mask & 2 != 0) == (mask / 2 % 2 == 1) && (mask & 4
        != 0) == (mask / 4 % 2 == 1) && (mask & 8 != 0) == (mask / 8 % 2 == 1)) by (bit_vector);
}

/// The modifier keys are the left and right Shift, Control, Alt and Meta: each turns
/// its own modifier on going down and off coming up. No other key touches a modifier.
pub proof fn law_modifier_keys_switch_their_modifier(
    s: InjectorState,
    code: String,
    mask: u8,
    near: bool,
    down: bool,
)
    ensures
        ({
            let ev = if down {
                InputEvent::KeyDown { code, modifiers: mask }
            } else {
                InputEvent::KeyUp { code, modifiers: mask }
            };
            let flags = injected(s, ev@, near).0.flags;
            let shift = code@ == "ShiftLeft"@ || code@ == "ShiftRight"@;
            let control = code@ == "ControlLeft"@ || code@ == "ControlRight"@;
            let alternate = code@ == "AltLeft"@ || code@ == "AltRight"@;
            let command = code@ == "MetaLeft"@ || code@ == "MetaRight"@;
            &&& flags.shift == if shift { down } else { s.flags.shift }
            &&& flags.control == if control { down } else { s.flags.control }
            &&& flags.alternate == if alternate { down } else { s.flags.alternate }
            &&& flags.command == if command { down } else { s.flags.command }
        }),
{
    law_control_keys();
    reveal_strlit("Insert");
    reveal_strlit("Help");
    if let Some(vk) = vk_for(code@) {
        if vk == 0x38 {
            law_keys_are_distinct(code@, "ShiftLeft"@);
        } else if vk == 0x3C {
            law_keys_are_distinct(code@, "ShiftRight"@);
        } else if vk == 0x3B {
            law_keys_are_distinct(code@, "ControlLeft"@);
        } else if vk == 0x3E {
            law_keys_are_distinct(code@, "ControlRight"@);
        } else if vk == 0x3A {
            law_keys_are_distinct(code@, "AltLeft"@);
        } else if vk == 0x3D {
            law_keys_are_distinct(code@, "AltRight"@);
        } else if vk == 0x37 {
            law_keys_are_distinct(code@, "MetaLeft"@);
        } else if vk == 0x36 {
            law_keys_are_distinct(code@, "MetaRight"@);
        }
    }
}

/// At the end of a session the held buttons are let go in the order left, middle,
/// right, each exactly if it was held, and the count of clicks is kept.
pub proof fn law_release_order(s: InjectorState)
    ensures
        s.left && s.middle && s.right ==> held_buttons(s) == seq![
            MouseButton::Left,
            MouseButton::Middle,
            MouseButton::Right,
        ],
        s.left && s.middle && !s.right ==> held_buttons(s) == seq![
            MouseButton::Left,
            MouseButton::Middle,
        ],
        s.left && !s.middle && s.right ==> held_buttons(s) == seq![
            MouseButton::Left,
            MouseButton::Right,
        ],
        !s.left && s.middle && s.right ==> held_buttons(s) == seq![
            MouseButton::Middle,
            MouseButton::Right,
        ],
        s.left && !s.middle && !s.right ==> held_buttons(s) == seq![MouseButton::Left],
        !s.left && s.middle && !s.right ==> held_buttons(s) == seq![MouseButton::Middle],
        !s.left && !s.middle && s.right ==> held_buttons(s) == seq![MouseButton::Right],
        !s.left && !s.middle && !s.right ==> held_buttons(s) == Seq::<MouseButton>::empty(),
        let_go(s) == (InjectorState {
            left: false,
            middle: false,
            right: false,
            flags: ModifierFlags {
                shift: false,
                control: false,
                alternate: false,
                command: false,
            },
            last_button: s.last_button,
            click_state: s.click_state,
        }),
{
}

/// Activity is declared at the first input and then again once more than five
/// seconds have passed; a press may repeat the last one for less than half a second.
pub proof fn law_windows_of_time(nanos: u128)
    ensures
        activity_is_due(None),
        activity_is_due(Some(nanos)) <==> nanos > 5_000_000_000,
        is_double_click(nanos) <==> nanos < 500_000_000,
{
}

/// The modifier flags one by one: what a set flag reads as, what setting one changes,
/// what two sets of flags come to, and which bits of a mask report which modifier.
pub proof fn law_flags_are_independent(f: ModifierFlags, g: ModifierFlags, on: bool, mask: u8)
    ensures
        f.has(Modifier::Shift) == f.shift,
        f.has(Modifier::Control) == f.control,
        f.has(Modifier::Alternate) == f.alternate,
        f.has(Modifier::Command) == f.command,
        f.with(Modifier::Shift, on) == (ModifierFlags { shift: on, ..f }),
        f.with(Modifier::Control, on) == (ModifierFlags { control: on, ..f }),
        f.with(Modifier::Alternate, on) == (ModifierFlags { alternate: on, ..f }),
        f.with(Modifier::Command, on) == (ModifierFlags { command: on, ..f }),
        f.or(g).shift == (f.shift || g.shift),
        f.or(g).control == (f.control || g.control),
        f.or(g).alternate == (f.alternate || g.alternate),
        f.or(g).command == (f.command || g.command),
        mask_flags(mask).shift <==> mask % 2 == 1,
        mask_flags(mask).control <==> mask / 2 % 2 == 1,
        mask_flags(mask).alternate <==> mask / 4 % 2 == 1,
        mask_flags(mask).command <==> mask / 8 % 2 == 1,
        !ModifierFlags::none().shift && !ModifierFlags::none().control,
        !ModifierFlags::none().alternate && !ModifierFlags::none().command,
{
    assert((mask & 1 != 0) == (mask % 2 == 1) && (mask & 2 != 0) == (mask / 2 % 2 == 1) && (mask & 4
        != 0) == (mask / 4 % 2 == 1) && (mask & 8 != 0) == (mask / 8 % 2 == 1)) by (bit_vector);
}

/// The virtual keys of the modifiers: 0x38 and 0x3C shift, 0x3B and 0x3E control, 0x3A
/// and 0x3D alternate, 0x37 and 0x36 command, and no other.
pub proof fn law_modifier_virtual_keys(vk: u16)
    ensures
        modifier_of(vk) == Some(Modifier::Shift) <==> vk == 0x38 || vk == 0x3C,
        modifier_of(vk) == Some(Modifier::Control) <==> vk == 0x3B || vk == 0x3E,
        modifier_of(vk) == Some(Modifier::Alternate) <==> vk == 0x3A || vk == 0x3D,
        modifier_of(vk) == Some(Modifier::Command) <==> vk == 0x37 || vk == 0x36,
        modifier_of(vk) is None <==> vk < 0x36 || vk == 0x39 || vk > 0x3E,
{
}

/// An injector starts with nothing held: its first move is a plain one, its first press
/// the first click whatever came before, and its keys carry the reported modifiers alone.
pub proof fn law_injectors_start_at_rest(button: MouseButton, x: u16, y: u16, near: bool)
    ensures
        injected(at_rest(), InputEvent::MouseMove { x, y }@, near).1 == (Injection::Mouse {
            action: MouseAction::Moved,
            button: MouseButton::Left,
            x,
            y,
            click_state: None,
            flags: ModifierFlags {
                shift: false,
                control: false,
                alternate: false,
                command: false,
            },
        }),
        injected(at_rest(), InputEvent::MouseDown { button, x, y }@, near).1 matches
            Injection::Mouse { click_state, .. } && click_state == Some(1i64),
        held_buttons(at_rest()) == Seq::<MouseButton>::empty(),
{
}

/// A key that the platform does not have posts nothing and changes nothing.
pub proof fn law_keys_without_a_virtual_key_are_dropped(
    s: InjectorState,
    code: String,
    mask: u8,
    near: bool,
)
    requires
        vk_for(code@) is None,
    ensures
        injected(s, InputEvent::KeyDown { code, modifiers: mask }@, near) == (
            s,
            Injection::Nothing,
        ),
        injected(s, InputEvent::KeyUp { code, modifiers: mask }@, near) == (s, Injection::Nothing),
{
}

} // verus!
