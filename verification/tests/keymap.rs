use tether::keymap::dom_code_to_vk;

#[test]
fn maps_common_keys() {
    assert_eq!(dom_code_to_vk("KeyA"), Some(0x00));
    assert_eq!(dom_code_to_vk("Space"), Some(0x31));
    assert_eq!(dom_code_to_vk("Enter"), Some(0x24));
    assert_eq!(dom_code_to_vk("MetaLeft"), Some(0x37));
    assert_eq!(dom_code_to_vk("ShiftRight"), Some(0x3C));
    assert_eq!(dom_code_to_vk("ArrowUp"), Some(0x7E));
    assert_eq!(dom_code_to_vk("Backspace"), Some(0x33));
    assert_eq!(dom_code_to_vk("Digit0"), Some(0x1D));
}

#[test]
fn unknown_keys_are_none_not_garbage() {
    assert_eq!(dom_code_to_vk("MediaPlayPause"), None);
    assert_eq!(dom_code_to_vk(""), None);
    assert_eq!(dom_code_to_vk("NotAKey"), None);
}

#[test]
fn every_group_of_keys_is_mapped() {
    for (code, vk) in [
        ("KeyM", 0x2E),
        ("Digit5", 0x17),
        ("F20", 0x5A),
        ("F1", 0x7A),
        ("NumLock", 0x47),
        ("NumpadComma", 0x5F),
        ("IntlBackslash", 0x0A),
        ("Backquote", 0x32),
        ("Insert", 0x72),
        ("Help", 0x72),
        ("Lang1", 0x68),
        ("ContextMenu", 0x6E),
        ("ControlRight", 0x3E),
    ] {
        assert_eq!(dom_code_to_vk(code), Some(vk), "{code}");
    }
    assert_eq!(dom_code_to_vk("keya"), None);
    assert_eq!(dom_code_to_vk("KeyAA"), None);
}
