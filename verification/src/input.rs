//! Input injection: what each input event makes the platform do.
//!
//! Synthetic events do not inherit held synthetic modifiers, so the injector
//! tracks modifier key state itself and stamps the accumulated flags onto
//! every key and mouse event (that's what makes shift/ctrl/cmd combos and
//! cmd-click work).

use vstd::prelude::*;

use crate::keymap::{dom_code_to_vk, vk_for};
use crate::protocol::modifiers::{ALT, CTRL, META, SHIFT};
use crate::protocol::{InputEvent, InputModel, MouseButton};

pub mod laws;

verus! {

/// One unit of work for the platform injector. Raw input events and committed
/// soft-keyboard text share a single ordered channel so a "type then click"
/// sequence stays in order on the host.
#[derive(Debug, Clone)]
pub enum InjectCommand {
    Event(InputEvent),
    /// Committed Unicode text from a soft keyboard, injected directly
    /// (bypasses the DOM-code to virtual-key path; handles emoji / any layout).
    Text(String),
    /// A controller session ended: release anything it may have held (mouse
    /// buttons, modifiers) so a mid-drag disconnect can't strand a button down.
    ReleaseAll,
}

/// A command as a value.
#[verifier::ext_equal]
pub enum CommandModel {
    Event(InputModel),
    Text(Seq<char>),
    ReleaseAll,
}

impl View for InjectCommand {
    type V = CommandModel;

    open spec fn view(&self) -> CommandModel {
        match *self {
            InjectCommand::Event(ev) => CommandModel::Event(ev@),
            InjectCommand::Text(text) => CommandModel::Text(text@),
            InjectCommand::ReleaseAll => CommandModel::ReleaseAll,
        }
    }
}

/// Platform input injection. Not `Send`: platform handles are thread-affine, so
/// injectors are constructed on their worker thread.
pub trait InputInjector {
    fn inject(&mut self, event: &InputEvent) -> Result<(), String>;

    fn inject_text(&mut self, text: &str) -> Result<(), String>;

    /// Release all currently-held buttons/modifiers (on session end).
    fn release_all(&mut self)
        default_ensures
            &*final(self) == &*old(self),
    {
    }

    /// Map subsequent input onto this platform display id (multi-monitor).
    fn set_active_display(&mut self, _display_id: u32)
        default_ensures
            &*final(self) == &*old(self),
    {
    }
}

/// A modifier key.
#[derive(Debug, Clone, Copy, PartialEq, Eq, Structural)]
pub enum Modifier {
    Shift,
    Control,
    Alternate,
    Command,
}

/// The modifiers stamped onto an event.
#[derive(Debug, Clone, Copy, PartialEq, Eq, Structural)]
pub struct ModifierFlags {
    pub shift: bool,
    pub control: bool,
    pub alternate: bool,
    pub command: bool,
}

impl ModifierFlags {
    pub open spec fn has(self, m: Modifier) -> bool {
        match m {
            Modifier::Shift => self.shift,
            Modifier::Control => self.control,
            Modifier::Alternate => self.alternate,
            Modifier::Command => self.command,
        }
    }

    /// No modifier.
    pub open spec fn none() -> ModifierFlags {
        ModifierFlags { shift: false, control: false, alternate: false, command: false }
    }

    /// The flags with one set or cleared.
    pub open spec fn with(self, m: Modifier, on: bool) -> ModifierFlags {
        match m {
            Modifier::Shift => ModifierFlags { shift: on, ..self },
            Modifier::Control => ModifierFlags { control: on, ..self },
            Modifier::Alternate => ModifierFlags { alternate: on, ..self },
            Modifier::Command => ModifierFlags { command: on, ..self },
        }
    }

    /// The flags of either.
    pub open spec fn or(self, other: ModifierFlags) -> ModifierFlags {
        ModifierFlags {
            shift: self.shift || other.shift,
            control: self.control || other.control,
            alternate: self.alternate || other.alternate,
            command: self.command || other.command,
        }
    }

    pub fn empty() -> (r: Self)
        ensures
            r == ModifierFlags::none(),
    {
        ModifierFlags { shift: false, control: false, alternate: false, command: false }
    }

    pub fn contains(self, m: Modifier) -> (r: bool)
        ensures
            r == self.has(m),
    {
        match m {
            Modifier::Shift => self.shift,
            Modifier::Control => self.control,
            Modifier::Alternate => self.alternate,
            Modifier::Command => self.command,
        }
    }

    pub fn set(&mut self, m: Modifier, on: bool)
        ensures
            *final(self) == old(self).with(m, on),
    {
        match m {
            Modifier::Shift => self.shift = on,
            Modifier::Control => self.control = on,
            Modifier::Alternate => self.alternate = on,
            Modifier::Command => self.command = on,
        }
    }

    pub fn union_with(self, other: ModifierFlags) -> (r: ModifierFlags)
        ensures
            r == self.or(other),
    {
        ModifierFlags {
            shift: self.shift || other.shift,
            control: self.control || other.control,
            alternate: self.alternate || other.alternate,
            command: self.command || other.command,
        }
    }
}

/// The modifier that a virtual key controls.
pub open spec fn modifier_of(vk: u16) -> Option<Modifier> {
    if vk == 0x38 || vk == 0x3C {
        Some(Modifier::Shift)
    } else if vk == 0x3B || vk == 0x3E {
        Some(Modifier::Control)
    } else if vk == 0x3A || vk == 0x3D {
        Some(Modifier::Alternate)
    } else if vk == 0x37 || vk == 0x36 {
        Some(Modifier::Command)
    } else {
        None
    }
}

/// Virtual key to the modifier flag it controls, for tracked-state updates.
pub fn modifier_flag_for_vk(vk: u16) -> (r: Option<Modifier>)
    ensures
        r == modifier_of(vk),
{
    match vk {
        0x38 | 0x3C => Some(Modifier::Shift),
        0x3B | 0x3E => Some(Modifier::Control),
        0x3A | 0x3D => Some(Modifier::Alternate),
        0x37 | 0x36 => Some(Modifier::Command),
        _ => None,
    }
}

/// The flags that a wire mask stands for.
pub open spec fn mask_flags(mask: u8) -> ModifierFlags {
    ModifierFlags {
        shift: mask & SHIFT != 0,
        control: mask & CTRL != 0,
        alternate: mask & ALT != 0,
        command: mask & META != 0,
    }
}

pub fn mask_to_flags(mask: u8) -> (r: ModifierFlags)
    ensures
        r == mask_flags(mask),
{
    ModifierFlags {
        shift: mask & SHIFT != 0,
        control: mask & CTRL != 0,
        alternate: mask & ALT != 0,
        command: mask & META != 0,
    }
}

/// What a mouse event posted to the platform is.
#[derive(Debug, Clone, Copy, PartialEq, Eq, Structural)]
pub enum MouseAction {
    Moved,
    Dragged,
    Down,
    Up,
}

/// What to post to the platform for an input event.
#[derive(Debug, Clone, Copy, PartialEq, Eq, Structural)]
pub enum Injection {
    /// A mouse event at the given normalized position; the click state rides on
    /// presses and releases.
    Mouse {
        action: MouseAction,
        button: MouseButton,
        x: u16,
        y: u16,
        click_state: Option<i64>,
        flags: ModifierFlags,
    },
    /// Scroll amounts in pixels, positive = up/left.
    Scroll { vertical: i32, horizontal: i32, flags: ModifierFlags },
    Key { vk: u16, down: bool, flags: ModifierFlags },
    /// The platform has no such key.
    Nothing,
}

/// Buttons, modifiers and clicks as the injector tracks them.
#[derive(Debug, Clone, Copy, PartialEq, Eq, Structural)]
pub struct InjectorState {
    pub left: bool,
    pub middle: bool,
    pub right: bool,
    pub flags: ModifierFlags,
    pub last_button: Option<MouseButton>,
    pub click_state: i64,
}

impl InjectorState {
    pub open spec fn holds(self, b: MouseButton) -> bool {
        match b {
            MouseButton::Left => self.left,
            MouseButton::Middle => self.middle,
            MouseButton::Right => self.right,
        }
    }

    pub open spec fn with_held(self, b: MouseButton, on: bool) -> InjectorState {
        match b {
            MouseButton::Left => InjectorState { left: on, ..self },
            MouseButton::Middle => InjectorState { middle: on, ..self },
            MouseButton::Right => InjectorState { right: on, ..self },
        }
    }

    /// What a move is while buttons are held: a drag of the left one, else of
    /// the right one, else of the middle one.
    pub open spec fn move_kind(self) -> (MouseAction, MouseButton) {
        if self.left {
            (MouseAction::Dragged, MouseButton::Left)
        } else if self.right {
            (MouseAction::Dragged, MouseButton::Right)
        } else if self.middle {
            (MouseAction::Dragged, MouseButton::Middle)
        } else {
            (MouseAction::Moved, MouseButton::Left)
        }
    }

    /// The click state of a press: one more than the last where it repeats the
    /// last button near to it in time and place.
    pub open spec fn clicks(self, b: MouseButton, near: bool) -> int {
        if self.last_button == Some(b) && near {
            self.click_state + 1
        } else {
            1
        }
    }
}

/// What an input event does to the tracked state and what it posts. `near`
/// tells whether a press comes shortly after the last one and close to it.
pub open spec fn injected(s: InjectorState, ev: InputModel, near: bool) -> (
    InjectorState,
    Injection,
) {
    match ev {
        InputModel::MouseMove { x, y } => (
            s,
            Injection::Mouse {
                action: s.move_kind().0,
                button: s.move_kind().1,
                x,
                y,
                click_state: None,
                flags: s.flags,
            },
        ),
        InputModel::MouseDown { button, x, y } => {
            let clicks = s.clicks(button, near) as i64;
            (
                InjectorState {
                    last_button: Some(button),
                    click_state: clicks,
                    ..s.with_held(button, true)
                },
                Injection::Mouse {
                    action: MouseAction::Down,
                    button,
                    x,
                    y,
                    click_state: Some(clicks),
                    flags: s.flags,
                },
            )
        },
        InputModel::MouseUp { button, x, y } => (
            s.with_held(button, false),
            Injection::Mouse {
                action: MouseAction::Up,
                button,
                x,
                y,
                click_state: Some(s.click_state),
                flags: s.flags,
            },
        ),
        InputModel::Scroll { dx, dy } => (
            s,
            Injection::Scroll {
                vertical: (-dy) as i32,
                horizontal: (-dx) as i32,
                flags: s.flags,
            },
        ),
        InputModel::KeyDown { code, modifiers } => key_injected(s, code, modifiers, true),
        InputModel::KeyUp { code, modifiers } => key_injected(s, code, modifiers, false),
    }
}

/// A key going down or up: a modifier key updates the tracked flags, and the
/// event carries the tracked flags together with the reported mask.
pub open spec fn key_injected(s: InjectorState, code: Seq<char>, mask: u8, down: bool) -> (
    InjectorState,
    Injection,
) {
    match vk_for(code) {
        None => (s, Injection::Nothing),
        Some(vk) => {
            let flags = match modifier_of(vk) {
                Some(m) => s.flags.with(m, down),
                None => s.flags,
            };
            (
                InjectorState { flags, ..s },
                Injection::Key { vk, down, flags: flags.or(mask_flags(mask)) },
            )
        },
    }
}

/// The buttons that are held, in the order in which they are let go.
pub open spec fn held_buttons(s: InjectorState) -> Seq<MouseButton> {
    (if s.left {
        seq![MouseButton::Left]
    } else {
        Seq::empty()
    }) + (if s.middle {
        seq![MouseButton::Middle]
    } else {
        Seq::empty()
    }) + (if s.right {
        seq![MouseButton::Right]
    } else {
        Seq::empty()
    })
}

/// Nothing held, no modifier.
pub open spec fn let_go(s: InjectorState) -> InjectorState {
    InjectorState {
        left: false,
        middle: false,
        right: false,
        flags: ModifierFlags::none(),
        ..s
    }
}

/// Nothing held, nothing pressed yet.
pub open spec fn at_rest() -> InjectorState {
    InjectorState {
        left: false,
        middle: false,
        right: false,
        flags: ModifierFlags::none(),
        last_button: None,
        click_state: 1,
    }
}

impl InjectorState {
    pub fn new() -> (r: Self)
        ensures
            r == at_rest(),
            r == (InjectorState {
                left: false,
                middle: false,
                right: false,
                flags: ModifierFlags::none(),
                last_button: None,
                click_state: 1,
            }),
    {
        InjectorState {
            left: false,
            middle: false,
            right: false,
            flags: ModifierFlags::empty(),
            last_button: None,
            click_state: 1,
        }
    }

    fn move_event_type(&self) -> (r: (MouseAction, MouseButton))
        ensures
            r == self.move_kind(),
    {
        if self.left {
            (MouseAction::Dragged, MouseButton::Left)
        } else if self.right {
            (MouseAction::Dragged, MouseButton::Right)
        } else if self.middle {
            (MouseAction::Dragged, MouseButton::Middle)
        } else {
            (MouseAction::Moved, MouseButton::Left)
        }
    }

    fn update_click_state(&mut self, button: MouseButton, near: bool)
        requires
            old(self).clicks(button, near) <= i64::MAX,
        ensures
            *final(self) == (InjectorState {
                last_button: Some(button),
                click_state: old(self).clicks(button, near) as i64,
                ..*old(self)
            }),
    {
        let repeated: bool = match self.last_button {
            Some(previous) => previous == button && near,
            None => false,
        };
        self.click_state = if repeated {
            self.click_state + 1
        } else {
            1
        };
        self.last_button = Some(button);
    }

    fn set_held(&mut self, button: MouseButton, on: bool)
        ensures
            *final(self) == old(self).with_held(button, on),
    {
        match button {
            MouseButton::Left => self.left = on,
            MouseButton::Middle => self.middle = on,
            MouseButton::Right => self.right = on,
        }
    }

    /// Take an input event; what to post for it.
    pub fn inject(&mut self, event: &InputEvent, near: bool) -> (r: Injection)
        requires
            event@ matches InputModel::MouseDown { button, .. } ==> old(self).clicks(button, near)
                <= i64::MAX,
        ensures
            (*final(self), r) == injected(*old(self), event@, near),
    {
        match event {
            InputEvent::MouseMove { x, y } => {
                let (action, button) = self.move_event_type();
                Injection::Mouse {
                    action,
                    button,
                    x: *x,
                    y: *y,
                    click_state: None,
                    flags: self.flags,
                }
            },
            InputEvent::MouseDown { button, x, y } => {
                self.update_click_state(*button, near);
                self.set_held(*button, true);
                Injection::Mouse {
                    action: MouseAction::Down,
                    button: *button,
                    x: *x,
                    y: *y,
                    click_state: Some(self.click_state),
                    flags: self.flags,
                }
            },
            InputEvent::MouseUp { button, x, y } => {
                self.set_held(*button, false);
                Injection::Mouse {
                    action: MouseAction::Up,
                    button: *button,
                    x: *x,
                    y: *y,
                    click_state: Some(self.click_state),
                    flags: self.flags,
                }
            },
            // DOM: positive deltaY = content scrolls down. The platform's axis:
            // positive = scroll up. Negate both axes.
            InputEvent::Scroll { dx, dy } => Injection::Scroll {
                vertical: -(*dy as i32),
                horizontal: -(*dx as i32),
                flags: self.flags,
            },
            InputEvent::KeyDown { code, modifiers } => self.key(code.as_str(), *modifiers, true),
            InputEvent::KeyUp { code, modifiers } => self.key(code.as_str(), *modifiers, false),
        }
    }

    fn key(&mut self, code: &str, mask: u8, down: bool) -> (r: Injection)
        ensures
            (*final(self), r) == key_injected(*old(self), code@, mask, down),
    {
        match dom_code_to_vk(code) {
            None => Injection::Nothing,
            Some(vk) => {
                if let Some(m) = modifier_flag_for_vk(vk) {
                    self.flags.set(m, down);
                }
                // Belt and braces: trust our tracked state, but OR in the
                // reported mask in case a modifier down was lost.
                Injection::Key { vk, down, flags: self.flags.union_with(mask_to_flags(mask)) }
            },
        }
    }

    /// Release every held mouse button and clear modifier flags. Called when a
    /// controller session ends so a mid-drag disconnect can't strand a button.
    /// Returns the buttons to let go.
    pub fn release_all(&mut self) -> (r: Vec<MouseButton>)
        ensures
            r@ == held_buttons(*old(self)),
            *final(self) == let_go(*old(self)),
    {
        let mut r: Vec<MouseButton> = Vec::new();
        if self.left {
            r.push(MouseButton::Left);
        }
        if self.middle {
            r.push(MouseButton::Middle);
        }
        if self.right {
            r.push(MouseButton::Right);
        }
        assert(r@ =~= held_buttons(*self));
        self.left = false;
        self.middle = false;
        self.right = false;
        self.flags = ModifierFlags::empty();
        r
    }
}

/// How often user activity is declared while input flows, in nanoseconds.
pub const ACTIVITY_PERIOD_NANOS: u128 = 5_000_000_000;

/// A press this close in time to the last one may be a multiple click, in
/// nanoseconds.
pub const DOUBLE_CLICK_WINDOW_NANOS: u128 = 500_000_000;

/// Whether user activity is to be declared, given how long ago that was last done.
pub open spec fn activity_is_due(since_last_nanos: Option<u128>) -> bool {
    since_last_nanos is None || since_last_nanos->0 > ACTIVITY_PERIOD_NANOS
}

/// Whether a press comes soon enough after the last one to repeat it.
pub open spec fn is_double_click(since_last_nanos: u128) -> bool {
    since_last_nanos < DOUBLE_CLICK_WINDOW_NANOS
}

/// Whether to declare user activity (wakes a sleeping display), given how long
/// ago that was last done: at most every few seconds.
pub fn activity_due(since_last_nanos: Option<u128>) -> (r: bool)
    ensures
        r == activity_is_due(since_last_nanos),
        r == (since_last_nanos is None || since_last_nanos->0 > ACTIVITY_PERIOD_NANOS),
{
    match since_last_nanos {
        None => true,
        Some(nanos) => nanos > ACTIVITY_PERIOD_NANOS,
    }
}

/// Whether a press comes soon enough after the last one to repeat it.
pub fn within_double_click(since_last_nanos: u128) -> (r: bool)
    ensures
        r == is_double_click(since_last_nanos),
        r == (since_last_nanos < DOUBLE_CLICK_WINDOW_NANOS),
{
    since_last_nanos < DOUBLE_CLICK_WINDOW_NANOS
}

/// When a session ends nothing stays held: every button that was down is let go
/// exactly once, and no modifier sticks.
pub proof fn law_release_leaves_nothing_held(s: InjectorState, b: MouseButton)
    ensures
        !let_go(s).holds(b),
        let_go(s).flags == ModifierFlags::none(),
        held_buttons(s).contains(b) <==> s.holds(b),
        held_buttons(s).no_duplicates(),
        held_buttons(let_go(s)).len() == 0,
{
    let h = held_buttons(s);
    if s.left {
        assert(h[0] == MouseButton::Left);
    }
    if s.middle {
        assert(h[if s.left {
            1int
        } else {
            0int
        }] == MouseButton::Middle);
    }
    if s.right {
        assert(h[h.len() - 1] == MouseButton::Right);
    }
}

/// A button is held from its press to its release, whatever else happens to
/// other buttons, keys or the pointer.
pub proof fn law_button_is_held_until_released(
    s: InjectorState,
    ev: InputModel,
    near: bool,
    b: MouseButton,
)
    ensures
        injected(s, ev, near).0.holds(b) == match ev {
            InputModel::MouseDown { button, .. } => button == b || s.holds(b),
            InputModel::MouseUp { button, .. } => button != b && s.holds(b),
            _ => s.holds(b),
        },
{
}

/// A move is posted as a drag exactly while a button is held.
pub proof fn law_move_is_a_drag_while_held(s: InjectorState, x: u16, y: u16, near: bool)
    ensures
        injected(s, InputModel::MouseMove { x, y }, near).1 matches Injection::Mouse {
            action,
            button,
            ..
        } && (action == MouseAction::Dragged <==> (s.left || s.middle || s.right)) && (action
            == MouseAction::Dragged ==> s.holds(button)),
{
}

/// A modifier key that goes down stays on every event until it goes up, and
/// then is off again.
pub proof fn law_modifier_is_tracked(s: InjectorState, code: Seq<char>, mask: u8, m: Modifier)
    requires
        vk_for(code) is Some,
        modifier_of(vk_for(code)->0) == Some(m),
    ensures
        key_injected(s, code, mask, true).0.flags.has(m),
        !key_injected(s, code, mask, false).0.flags.has(m),
        key_injected(key_injected(s, code, mask, true).0, code, mask, false).0.flags
            == s.flags.with(m, false),
{
}

/// A key the platform does not have changes nothing and posts nothing.
pub proof fn law_unknown_key_is_dropped(s: InjectorState, code: Seq<char>, mask: u8, down: bool)
    requires
        vk_for(code) is None,
    ensures
        key_injected(s, code, mask, down) == (s, Injection::Nothing),
{
}

/// Only keys touch the modifiers.
pub proof fn law_pointer_keeps_modifiers(s: InjectorState, ev: InputModel, near: bool)
    requires
        !(ev is KeyDown) && !(ev is KeyUp),
    ensures
        injected(s, ev, near).0.flags == s.flags,
{
}

} // verus!
