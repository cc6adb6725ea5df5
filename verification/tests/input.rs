use tether::input::{
    activity_due, mask_to_flags, modifier_flag_for_vk, within_double_click, Injection,
    InjectorState, Modifier, ModifierFlags, MouseAction,
};
use tether::keymap;
use tether::protocol::{modifiers, InputEvent, MouseButton};

#[test]
fn modifier_masks_translate_to_cg_flags() {
    let f = mask_to_flags(modifiers::SHIFT | modifiers::META);
    assert!(f.contains(Modifier::Shift));
    assert!(f.contains(Modifier::Command));
    assert!(!f.contains(Modifier::Control));
    assert_eq!(mask_to_flags(0), ModifierFlags::empty());
}

#[test]
fn modifier_keys_map_to_their_flags() {
    assert_eq!(
        modifier_flag_for_vk(keymap::dom_code_to_vk("MetaLeft").unwrap()),
        Some(Modifier::Command)
    );
    assert_eq!(
        modifier_flag_for_vk(keymap::dom_code_to_vk("ShiftRight").unwrap()),
        Some(Modifier::Shift)
    );
    assert_eq!(modifier_flag_for_vk(keymap::dom_code_to_vk("KeyA").unwrap()), None);
}

fn down(code: &str) -> InputEvent {
    InputEvent::KeyDown { code: code.into(), modifiers: 0 }
}

fn up(code: &str) -> InputEvent {
    InputEvent::KeyUp { code: code.into(), modifiers: 0 }
}

#[test]
fn held_modifiers_ride_on_every_event() {
    let mut s = InjectorState::new();
    s.inject(&down("MetaLeft"), false);
    let Injection::Key { vk, down: true, flags } = s.inject(&down("KeyC"), false) else {
        panic!("expected a key");
    };
    assert_eq!(vk, 0x08);
    assert!(flags.contains(Modifier::Command));
    let Injection::Scroll { vertical: -240, horizontal: 120, flags } =
        s.inject(&InputEvent::Scroll { dx: -120, dy: 240 }, false)
    else {
        panic!("expected a scroll");
    };
    assert!(flags.contains(Modifier::Command));
    s.inject(&up("MetaLeft"), false);
    let Injection::Key { flags, .. } = s.inject(&down("KeyC"), false) else { panic!() };
    assert_eq!(flags, ModifierFlags::empty());
    let reported = InputEvent::KeyDown { code: "KeyC".into(), modifiers: modifiers::ALT };
    let Injection::Key { flags, .. } = s.inject(&reported, false) else { panic!() };
    assert!(flags.contains(Modifier::Alternate));
    assert_eq!(s.inject(&down("MediaPlayPause"), false), Injection::Nothing);
}

#[test]
fn moves_drag_the_held_button_and_release_all_lets_go() {
    let mut s = InjectorState::new();
    let mv = InputEvent::MouseMove { x: 1, y: 2 };
    let kind = |i: Injection| match i {
        Injection::Mouse { action, button, .. } => (action, button),
        other => panic!("{other:?}"),
    };
    assert_eq!(kind(s.inject(&mv, false)), (MouseAction::Moved, MouseButton::Left));
    s.inject(&InputEvent::MouseDown { button: MouseButton::Middle, x: 0, y: 0 }, false);
    assert_eq!(kind(s.inject(&mv, false)), (MouseAction::Dragged, MouseButton::Middle));
    s.inject(&InputEvent::MouseDown { button: MouseButton::Right, x: 0, y: 0 }, false);
    assert_eq!(kind(s.inject(&mv, false)), (MouseAction::Dragged, MouseButton::Right));
    s.inject(&down("ShiftLeft"), false);
    assert_eq!(s.release_all(), vec![MouseButton::Middle, MouseButton::Right]);
    assert_eq!(s.release_all(), vec![]);
    assert_eq!(kind(s.inject(&mv, false)), (MouseAction::Moved, MouseButton::Left));
    assert_eq!(s.flags, ModifierFlags::empty());
}

#[test]
fn clicks_count_up_when_near_and_start_over_otherwise() {
    let mut s = InjectorState::new();
    let clicks = |i: Injection| match i {
        Injection::Mouse { click_state, .. } => click_state,
        other => panic!("{other:?}"),
    };
    let left = InputEvent::MouseDown { button: MouseButton::Left, x: 0, y: 0 };
    let right = InputEvent::MouseDown { button: MouseButton::Right, x: 0, y: 0 };
    assert_eq!(clicks(s.inject(&left, true)), Some(1));
    assert_eq!(clicks(s.inject(&left, true)), Some(2));
    let release = InputEvent::MouseUp { button: MouseButton::Left, x: 0, y: 0 };
    assert_eq!(clicks(s.inject(&release, false)), Some(2));
    assert_eq!(clicks(s.inject(&right, true)), Some(1));
    assert_eq!(clicks(s.inject(&right, false)), Some(1));
}

#[test]
fn windows_of_time() {
    assert!(activity_due(None));
    assert!(!activity_due(Some(5_000_000_000)));
    assert!(activity_due(Some(5_000_000_001)));
    assert!(within_double_click(499_999_999));
    assert!(!within_double_click(500_000_000));
}
