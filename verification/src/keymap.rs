//! W3C `KeyboardEvent.code` to macOS virtual key code (Carbon `kVK_*` values,
//! ANSI layout). The DOM code identifies the *physical* key, which is exactly
//! what virtual key codes describe, so this mapping is layout-independent.

use vstd::prelude::*;

use crate::text::same_text;

pub mod laws;

verus! {

/// Letter keys.
pub open spec fn letter_key(code: Seq<char>) -> Option<u16> {
    if code == "KeyA"@ {
        Some(0x00)
    } else if code == "KeyS"@ {
        Some(0x01)
    } else if code == "KeyD"@ {
        Some(0x02)
    } else if code == "KeyF"@ {
        Some(0x03)
    } else if code == "KeyH"@ {
        Some(0x04)
    } else if code == "KeyG"@ {
        Some(0x05)
    } else if code == "KeyZ"@ {
        Some(0x06)
    } else if code == "KeyX"@ {
        Some(0x07)
    } else if code == "KeyC"@ {
        Some(0x08)
    } else if code == "KeyV"@ {
        Some(0x09)
    } else if code == "KeyB"@ {
        Some(0x0B)
    } else if code == "KeyQ"@ {
        Some(0x0C)
    } else if code == "KeyW"@ {
        Some(0x0D)
    } else if code == "KeyE"@ {
        Some(0x0E)
    } else if code == "KeyR"@ {
        Some(0x0F)
    } else if code == "KeyY"@ {
        Some(0x10)
    } else if code == "KeyT"@ {
        Some(0x11)
    } else if code == "KeyO"@ {
        Some(0x1F)
    } else if code == "KeyU"@ {
        Some(0x20)
    } else if code == "KeyI"@ {
        Some(0x22)
    } else if code == "KeyP"@ {
        Some(0x23)
    } else if code == "KeyL"@ {
        Some(0x25)
    } else if code == "KeyJ"@ {
        Some(0x26)
    } else if code == "KeyK"@ {
        Some(0x28)
    } else if code == "KeyN"@ {
        Some(0x2D)
    } else if code == "KeyM"@ {
        Some(0x2E)
    } else {
        None
    }
}

fn letter_vk(code: &str) -> (vk: Option<u16>)
    ensures
        vk == letter_key(code@),
{
    if same_text(code, "KeyA") {
        Some(0x00)
    } else if same_text(code, "KeyS") {
        Some(0x01)
    } else if same_text(code, "KeyD") {
        Some(0x02)
    } else if same_text(code, "KeyF") {
        Some(0x03)
    } else if same_text(code, "KeyH") {
        Some(0x04)
    } else if same_text(code, "KeyG") {
        Some(0x05)
    } else if same_text(code, "KeyZ") {
        Some(0x06)
    } else if same_text(code, "KeyX") {
        Some(0x07)
    } else if same_text(code, "KeyC") {
        Some(0x08)
    } else if same_text(code, "KeyV") {
        Some(0x09)
    } else if same_text(code, "KeyB") {
        Some(0x0B)
    } else if same_text(code, "KeyQ") {
        Some(0x0C)
    } else if same_text(code, "KeyW") {
        Some(0x0D)
    } else if same_text(code, "KeyE") {
        Some(0x0E)
    } else if same_text(code, "KeyR") {
        Some(0x0F)
    } else if same_text(code, "KeyY") {
        Some(0x10)
    } else if same_text(code, "KeyT") {
        Some(0x11)
    } else if same_text(code, "KeyO") {
        Some(0x1F)
    } else if same_text(code, "KeyU") {
        Some(0x20)
    } else if same_text(code, "KeyI") {
        Some(0x22)
    } else if same_text(code, "KeyP") {
        Some(0x23)
    } else if same_text(code, "KeyL") {
        Some(0x25)
    } else if same_text(code, "KeyJ") {
        Some(0x26)
    } else if same_text(code, "KeyK") {
        Some(0x28)
    } else if same_text(code, "KeyN") {
        Some(0x2D)
    } else if same_text(code, "KeyM") {
        Some(0x2E)
    } else {
        None
    }
}

/// Digit keys above the letters.
pub open spec fn digit_key(code: Seq<char>) -> Option<u16> {
    if code == "Digit1"@ {
        Some(0x12)
    } else if code == "Digit2"@ {
        Some(0x13)
    } else if code == "Digit3"@ {
        Some(0x14)
    } else if code == "Digit4"@ {
        Some(0x15)
    } else if code == "Digit6"@ {
        Some(0x16)
    } else if code == "Digit5"@ {
        Some(0x17)
    } else if code == "Digit9"@ {
        Some(0x19)
    } else if code == "Digit7"@ {
        Some(0x1A)
    } else if code == "Digit8"@ {
        Some(0x1C)
    } else if code == "Digit0"@ {
        Some(0x1D)
    } else {
        None
    }
}

fn digit_vk(code: &str) -> (vk: Option<u16>)
    ensures
        vk == digit_key(code@),
{
    if same_text(code, "Digit1") {
        Some(0x12)
    } else if same_text(code, "Digit2") {
        Some(0x13)
    } else if same_text(code, "Digit3") {
        Some(0x14)
    } else if same_text(code, "Digit4") {
        Some(0x15)
    } else if same_text(code, "Digit6") {
        Some(0x16)
    } else if same_text(code, "Digit5") {
        Some(0x17)
    } else if same_text(code, "Digit9") {
        Some(0x19)
    } else if same_text(code, "Digit7") {
        Some(0x1A)
    } else if same_text(code, "Digit8") {
        Some(0x1C)
    } else if same_text(code, "Digit0") {
        Some(0x1D)
    } else {
        None
    }
}

/// Function keys.
pub open spec fn function_key(code: Seq<char>) -> Option<u16> {
    if code == "F17"@ {
        Some(0x40)
    } else if code == "F18"@ {
        Some(0x4F)
    } else if code == "F19"@ {
        Some(0x50)
    } else if code == "F20"@ {
        Some(0x5A)
    } else if code == "F5"@ {
        Some(0x60)
    } else if code == "F6"@ {
        Some(0x61)
    } else if code == "F7"@ {
        Some(0x62)
    } else if code == "F3"@ {
        Some(0x63)
    } else if code == "F8"@ {
        Some(0x64)
    } else if code == "F9"@ {
        Some(0x65)
    } else if code == "F11"@ {
        Some(0x67)
    } else if code == "F13"@ {
        Some(0x69)
    } else if code == "F16"@ {
        Some(0x6A)
    } else if code == "F14"@ {
        Some(0x6B)
    } else if code == "F10"@ {
        Some(0x6D)
    } else if code == "F12"@ {
        Some(0x6F)
    } else if code == "F15"@ {
        Some(0x71)
    } else if code == "F4"@ {
        Some(0x76)
    } else if code == "F2"@ {
        Some(0x78)
    } else if code == "F1"@ {
        Some(0x7A)
    } else {
        None
    }
}

fn function_vk(code: &str) -> (vk: Option<u16>)
    ensures
        vk == function_key(code@),
{
    if same_text(code, "F17") {
        Some(0x40)
    } else if same_text(code, "F18") {
        Some(0x4F)
    } else if same_text(code, "F19") {
        Some(0x50)
    } else if same_text(code, "F20") {
        Some(0x5A)
    } else if same_text(code, "F5") {
        Some(0x60)
    } else if same_text(code, "F6") {
        Some(0x61)
    } else if same_text(code, "F7") {
        Some(0x62)
    } else if same_text(code, "F3") {
        Some(0x63)
    } else if same_text(code, "F8") {
        Some(0x64)
    } else if same_text(code, "F9") {
        Some(0x65)
    } else if same_text(code, "F11") {
        Some(0x67)
    } else if same_text(code, "F13") {
        Some(0x69)
    } else if same_text(code, "F16") {
        Some(0x6A)
    } else if same_text(code, "F14") {
        Some(0x6B)
    } else if same_text(code, "F10") {
        Some(0x6D)
    } else if same_text(code, "F12") {
        Some(0x6F)
    } else if same_text(code, "F15") {
        Some(0x71)
    } else if same_text(code, "F4") {
        Some(0x76)
    } else if same_text(code, "F2") {
        Some(0x78)
    } else if same_text(code, "F1") {
        Some(0x7A)
    } else {
        None
    }
}

/// Keys of the number pad.
pub open spec fn numpad_key(code: Seq<char>) -> Option<u16> {
    if code == "NumpadDecimal"@ {
        Some(0x41)
    } else if code == "NumpadMultiply"@ {
        Some(0x43)
    } else if code == "NumpadAdd"@ {
        Some(0x45)
    } else if code == "NumLock"@ {
        Some(0x47)
    } else if code == "NumpadDivide"@ {
        Some(0x4B)
    } else if code == "NumpadEnter"@ {
        Some(0x4C)
    } else if code == "NumpadSubtract"@ {
        Some(0x4E)
    } else if code == "NumpadEqual"@ {
        Some(0x51)
    } else if code == "Numpad0"@ {
        Some(0x52)
    } else if code == "Numpad1"@ {
        Some(0x53)
    } else if code == "Numpad2"@ {
        Some(0x54)
    } else if code == "Numpad3"@ {
        Some(0x55)
    } else if code == "Numpad4"@ {
        Some(0x56)
    } else if code == "Numpad5"@ {
        Some(0x57)
    } else if code == "Numpad6"@ {
        Some(0x58)
    } else if code == "Numpad7"@ {
        Some(0x59)
    } else if code == "Numpad8"@ {
        Some(0x5B)
    } else if code == "Numpad9"@ {
        Some(0x5C)
    } else if code == "NumpadComma"@ {
        Some(0x5F)
    } else {
        None
    }
}

fn numpad_vk(code: &str) -> (vk: Option<u16>)
    ensures
        vk == numpad_key(code@),
{
    if same_text(code, "NumpadDecimal") {
        Some(0x41)
    } else if same_text(code, "NumpadMultiply") {
        Some(0x43)
    } else if same_text(code, "NumpadAdd") {
        Some(0x45)
    } else if same_text(code, "NumLock") {
        Some(0x47)
    } else if same_text(code, "NumpadDivide") {
        Some(0x4B)
    } else if same_text(code, "NumpadEnter") {
        Some(0x4C)
    } else if same_text(code, "NumpadSubtract") {
        Some(0x4E)
    } else if same_text(code, "NumpadEqual") {
        Some(0x51)
    } else if same_text(code, "Numpad0") {
        Some(0x52)
    } else if same_text(code, "Numpad1") {
        Some(0x53)
    } else if same_text(code, "Numpad2") {
        Some(0x54)
    } else if same_text(code, "Numpad3") {
        Some(0x55)
    } else if same_text(code, "Numpad4") {
        Some(0x56)
    } else if same_text(code, "Numpad5") {
        Some(0x57)
    } else if same_text(code, "Numpad6") {
        Some(0x58)
    } else if same_text(code, "Numpad7") {
        Some(0x59)
    } else if same_text(code, "Numpad8") {
        Some(0x5B)
    } else if same_text(code, "Numpad9") {
        Some(0x5C)
    } else if same_text(code, "NumpadComma") {
        Some(0x5F)
    } else {
        None
    }
}

/// Punctuation and the keys of non-ANSI layouts.
pub open spec fn punctuation_key(code: Seq<char>) -> Option<u16> {
    if code == "IntlBackslash"@ {
        Some(0x0A)
    } else if code == "Equal"@ {
        Some(0x18)
    } else if code == "Minus"@ {
        Some(0x1B)
    } else if code == "BracketRight"@ {
        Some(0x1E)
    } else if code == "BracketLeft"@ {
        Some(0x21)
    } else if code == "Quote"@ {
        Some(0x27)
    } else if code == "Semicolon"@ {
        Some(0x29)
    } else if code == "Backslash"@ {
        Some(0x2A)
    } else if code == "Comma"@ {
        Some(0x2B)
    } else if code == "Slash"@ {
        Some(0x2C)
    } else if code == "Period"@ {
        Some(0x2F)
    } else if code == "Backquote"@ {
        Some(0x32)
    } else if code == "IntlYen"@ {
        Some(0x5D)
    } else if code == "IntlRo"@ {
        Some(0x5E)
    } else {
        None
    }
}

fn punctuation_vk(code: &str) -> (vk: Option<u16>)
    ensures
        vk == punctuation_key(code@),
{
    if same_text(code, "IntlBackslash") {
        Some(0x0A)
    } else if same_text(code, "Equal") {
        Some(0x18)
    } else if same_text(code, "Minus") {
        Some(0x1B)
    } else if same_text(code, "BracketRight") {
        Some(0x1E)
    } else if same_text(code, "BracketLeft") {
        Some(0x21)
    } else if same_text(code, "Quote") {
        Some(0x27)
    } else if same_text(code, "Semicolon") {
        Some(0x29)
    } else if same_text(code, "Backslash") {
        Some(0x2A)
    } else if same_text(code, "Comma") {
        Some(0x2B)
    } else if same_text(code, "Slash") {
        Some(0x2C)
    } else if same_text(code, "Period") {
        Some(0x2F)
    } else if same_text(code, "Backquote") {
        Some(0x32)
    } else if same_text(code, "IntlYen") {
        Some(0x5D)
    } else if same_text(code, "IntlRo") {
        Some(0x5E)
    } else {
        None
    }
}

/// Editing, navigation, modifier and language keys.
pub open spec fn control_key(code: Seq<char>) -> Option<u16> {
    if code == "Enter"@ {
        Some(0x24)
    } else if code == "Tab"@ {
        Some(0x30)
    } else if code == "Space"@ {
        Some(0x31)
    } else if code == "Backspace"@ {
        Some(0x33)
    } else if code == "Escape"@ {
        Some(0x35)
    } else if code == "MetaRight"@ {
        Some(0x36)
    } else if code == "MetaLeft"@ {
        Some(0x37)
    } else if code == "ShiftLeft"@ {
        Some(0x38)
    } else if code == "CapsLock"@ {
        Some(0x39)
    } else if code == "AltLeft"@ {
        Some(0x3A)
    } else if code == "ControlLeft"@ {
        Some(0x3B)
    } else if code == "ShiftRight"@ {
        Some(0x3C)
    } else if code == "AltRight"@ {
        Some(0x3D)
    } else if code == "ControlRight"@ {
        Some(0x3E)
    } else if code == "Lang2"@ {
        Some(0x66)
    } else if code == "Lang1"@ {
        Some(0x68)
    } else if code == "ContextMenu"@ {
        Some(0x6E)
    } else if code == "Insert"@ {
        Some(0x72)
    } else if code == "Help"@ {
        Some(0x72)
    } else if code == "Home"@ {
        Some(0x73)
    } else if code == "PageUp"@ {
        Some(0x74)
    } else if code == "Delete"@ {
        Some(0x75)
    } else if code == "End"@ {
        Some(0x77)
    } else if code == "PageDown"@ {
        Some(0x79)
    } else if code == "ArrowLeft"@ {
        Some(0x7B)
    } else if code == "ArrowRight"@ {
        Some(0x7C)
    } else if code == "ArrowDown"@ {
        Some(0x7D)
    } else if code == "ArrowUp"@ {
        Some(0x7E)
    } else {
        None
    }
}

fn control_vk(code: &str) -> (vk: Option<u16>)
    ensures
        vk == control_key(code@),
{
    if same_text(code, "Enter") {
        Some(0x24)
    } else if same_text(code, "Tab") {
        Some(0x30)
    } else if same_text(code, "Space") {
        Some(0x31)
    } else if same_text(code, "Backspace") {
        Some(0x33)
    } else if same_text(code, "Escape") {
        Some(0x35)
    } else if same_text(code, "MetaRight") {
        Some(0x36)
    } else if same_text(code, "MetaLeft") {
        Some(0x37)
    } else if same_text(code, "ShiftLeft") {
        Some(0x38)
    } else if same_text(code, "CapsLock") {
        Some(0x39)
    } else if same_text(code, "AltLeft") {
        Some(0x3A)
    } else if same_text(code, "ControlLeft") {
        Some(0x3B)
    } else if same_text(code, "ShiftRight") {
        Some(0x3C)
    } else if same_text(code, "AltRight") {
        Some(0x3D)
    } else if same_text(code, "ControlRight") {
        Some(0x3E)
    } else if same_text(code, "Lang2") {
        Some(0x66)
    } else if same_text(code, "Lang1") {
        Some(0x68)
    } else if same_text(code, "ContextMenu") {
        Some(0x6E)
    } else if same_text(code, "Insert") {
        Some(0x72)
    } else if same_text(code, "Help") {
        Some(0x72)
    } else if same_text(code, "Home") {
        Some(0x73)
    } else if same_text(code, "PageUp") {
        Some(0x74)
    } else if same_text(code, "Delete") {
        Some(0x75)
    } else if same_text(code, "End") {
        Some(0x77)
    } else if same_text(code, "PageDown") {
        Some(0x79)
    } else if same_text(code, "ArrowLeft") {
        Some(0x7B)
    } else if same_text(code, "ArrowRight") {
        Some(0x7C)
    } else if same_text(code, "ArrowDown") {
        Some(0x7D)
    } else if same_text(code, "ArrowUp") {
        Some(0x7E)
    } else {
        None
    }
}

/// The first of two that is there.
pub open spec fn first_of(a: Option<u16>, b: Option<u16>) -> Option<u16> {
    if a is Some {
        a
    } else {
        b
    }
}

/// The virtual key of a DOM code.
pub open spec fn vk_for(code: Seq<char>) -> Option<u16> {
    first_of(
        letter_key(code),
        first_of(
            digit_key(code),
            first_of(
                function_key(code),
                first_of(
                    numpad_key(code),
                    first_of(punctuation_key(code), control_key(code)),
                ),
            ),
        ),
    )
}

/// Returns `None` for keys macOS has no virtual key code for (browser/media
/// keys); callers should log and drop those.
pub fn dom_code_to_vk(code: &str) -> (vk: Option<u16>)
    ensures
        vk == vk_for(code@),
{
    if let Some(vk) = letter_vk(code) {
        return Some(vk);
    }
    if let Some(vk) = digit_vk(code) {
        return Some(vk);
    }
    if let Some(vk) = function_vk(code) {
        return Some(vk);
    }
    if let Some(vk) = numpad_vk(code) {
        return Some(vk);
    }
    if let Some(vk) = punctuation_vk(code) {
        return Some(vk);
    }
    control_vk(code)
}

} // verus!
