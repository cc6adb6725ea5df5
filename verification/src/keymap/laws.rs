//! The key table, key by key: which virtual key each DOM code stands for, that no
//! two keys share one, and that there are no others.

use vstd::prelude::*;

use super::{
    control_key, digit_key, function_key, letter_key, numpad_key, punctuation_key, vk_for,
};

verus! {
proof fn lemma_letter_shape(code: Seq<char>)
    ensures
        letter_key(code) is Some ==> code.len() == 4 && code[0] == 'K',
{
    reveal_strlit("KeyA");
    reveal_strlit("KeyS");
    reveal_strlit("KeyD");
    reveal_strlit("KeyF");
    reveal_strlit("KeyH");
    reveal_strlit("KeyG");
    reveal_strlit("KeyZ");
    reveal_strlit("KeyX");
    reveal_strlit("KeyC");
    reveal_strlit("KeyV");
    reveal_strlit("KeyB");
    reveal_strlit("KeyQ");
    reveal_strlit("KeyW");
    reveal_strlit("KeyE");
    reveal_strlit("KeyR");
    reveal_strlit("KeyY");
    reveal_strlit("KeyT");
    reveal_strlit("KeyO");
    reveal_strlit("KeyU");
    reveal_strlit("KeyI");
    reveal_strlit("KeyP");
    reveal_strlit("KeyL");
    reveal_strlit("KeyJ");
    reveal_strlit("KeyK");
    reveal_strlit("KeyN");
    reveal_strlit("KeyM");
}

proof fn lemma_digit_shape(code: Seq<char>)
    ensures
        digit_key(code) is Some ==> code.len() == 6 && code[0] == 'D' && code[1] == 'i',
{
    reveal_strlit("Digit1");
    reveal_strlit("Digit2");
    reveal_strlit("Digit3");
    reveal_strlit("Digit4");
    reveal_strlit("Digit6");
    reveal_strlit("Digit5");
    reveal_strlit("Digit9");
    reveal_strlit("Digit7");
    reveal_strlit("Digit8");
    reveal_strlit("Digit0");
}

proof fn lemma_function_shape(code: Seq<char>)
    ensures
        function_key(code) is Some ==> code.len() >= 2 && code[0] == 'F',
{
    reveal_strlit("F17");
    reveal_strlit("F18");
    reveal_strlit("F19");
    reveal_strlit("F20");
    reveal_strlit("F5");
    reveal_strlit("F6");
    reveal_strlit("F7");
    reveal_strlit("F3");
    reveal_strlit("F8");
    reveal_strlit("F9");
    reveal_strlit("F11");
    reveal_strlit("F13");
    reveal_strlit("F16");
    reveal_strlit("F14");
    reveal_strlit("F10");
    reveal_strlit("F12");
    reveal_strlit("F15");
    reveal_strlit("F4");
    reveal_strlit("F2");
    reveal_strlit("F1");
}

proof fn lemma_numpad_shape(code: Seq<char>)
    ensures
        numpad_key(code) is Some ==> code.len() >= 7 && code[0] == 'N',
{
    reveal_strlit("NumpadDecimal");
    reveal_strlit("NumpadMultiply");
    reveal_strlit("NumpadAdd");
    reveal_strlit("NumLock");
    reveal_strlit("NumpadDivide");
    reveal_strlit("NumpadEnter");
    reveal_strlit("NumpadSubtract");
    reveal_strlit("NumpadEqual");
    reveal_strlit("Numpad0");
    reveal_strlit("Numpad1");
    reveal_strlit("Numpad2");
    reveal_strlit("Numpad3");
    reveal_strlit("Numpad4");
    reveal_strlit("Numpad5");
    reveal_strlit("Numpad6");
    reveal_strlit("Numpad7");
    reveal_strlit("Numpad8");
    reveal_strlit("Numpad9");
    reveal_strlit("NumpadComma");
}

/// The letter keys, at their places on an ANSI keyboard.
#[verifier::rlimit(30)]
pub proof fn law_letter_keys()
    ensures
        vk_for("KeyA"@) == Some(0x00u16),
        vk_for("KeyB"@) == Some(0x0Bu16),
        vk_for("KeyC"@) == Some(0x08u16),
        vk_for("KeyD"@) == Some(0x02u16),
        vk_for("KeyE"@) == Some(0x0Eu16),
        vk_for("KeyF"@) == Some(0x03u16),
        vk_for("KeyG"@) == Some(0x05u16),
        vk_for("KeyH"@) == Some(0x04u16),
        vk_for("KeyI"@) == Some(0x22u16),
        vk_for("KeyJ"@) == Some(0x26u16),
        vk_for("KeyK"@) == Some(0x28u16),
        vk_for("KeyL"@) == Some(0x25u16),
        vk_for("KeyM"@) == Some(0x2Eu16),
        vk_for("KeyN"@) == Some(0x2Du16),
        vk_for("KeyO"@) == Some(0x1Fu16),
        vk_for("KeyP"@) == Some(0x23u16),
        vk_for("KeyQ"@) == Some(0x0Cu16),
        vk_for("KeyR"@) == Some(0x0Fu16),
        vk_for("KeyS"@) == Some(0x01u16),
        vk_for("KeyT"@) == Some(0x11u16),
        vk_for("KeyU"@) == Some(0x20u16),
        vk_for("KeyV"@) == Some(0x09u16),
        vk_for("KeyW"@) == Some(0x0Du16),
        vk_for("KeyX"@) == Some(0x07u16),
        vk_for("KeyY"@) == Some(0x10u16),
        vk_for("KeyZ"@) == Some(0x06u16),
{
    reveal_strlit("KeyA");
    reveal_strlit("KeyS");
    reveal_strlit("KeyD");
    reveal_strlit("KeyF");
    reveal_strlit("KeyH");
    reveal_strlit("KeyG");
    reveal_strlit("KeyZ");
    reveal_strlit("KeyX");
    reveal_strlit("KeyC");
    reveal_strlit("KeyV");
    reveal_strlit("KeyB");
    reveal_strlit("KeyQ");
    reveal_strlit("KeyW");
    reveal_strlit("KeyE");
    reveal_strlit("KeyR");
    reveal_strlit("KeyY");
    reveal_strlit("KeyT");
    reveal_strlit("KeyO");
    reveal_strlit("KeyU");
    reveal_strlit("KeyI");
    reveal_strlit("KeyP");
    reveal_strlit("KeyL");
    reveal_strlit("KeyJ");
    reveal_strlit("KeyK");
    reveal_strlit("KeyN");
    reveal_strlit("KeyM");
    assert("KeyA"@[3] == 'A');
    assert("KeyS"@[3] == 'S');
    assert("KeyD"@[3] == 'D');
    assert("KeyF"@[3] == 'F');
    assert("KeyH"@[3] == 'H');
    assert("KeyG"@[3] == 'G');
    assert("KeyZ"@[3] == 'Z');
    assert("KeyX"@[3] == 'X');
    assert("KeyC"@[3] == 'C');
    assert("KeyV"@[3] == 'V');
    assert("KeyB"@[3] == 'B');
    assert("KeyQ"@[3] == 'Q');
    assert("KeyW"@[3] == 'W');
    assert("KeyE"@[3] == 'E');
    assert("KeyR"@[3] == 'R');
    assert("KeyY"@[3] == 'Y');
    assert("KeyT"@[3] == 'T');
    assert("KeyO"@[3] == 'O');
    assert("KeyU"@[3] == 'U');
    assert("KeyI"@[3] == 'I');
    assert("KeyP"@[3] == 'P');
    assert("KeyL"@[3] == 'L');
    assert("KeyJ"@[3] == 'J');
    assert("KeyK"@[3] == 'K');
    assert("KeyN"@[3] == 'N');
    assert("KeyM"@[3] == 'M');
}

/// The digit keys above the letters.
#[verifier::rlimit(30)]
pub proof fn law_digit_keys()
    ensures
        vk_for("Digit0"@) == Some(0x1Du16),
        vk_for("Digit1"@) == Some(0x12u16),
        vk_for("Digit2"@) == Some(0x13u16),
        vk_for("Digit3"@) == Some(0x14u16),
        vk_for("Digit4"@) == Some(0x15u16),
        vk_for("Digit5"@) == Some(0x17u16),
        vk_for("Digit6"@) == Some(0x16u16),
        vk_for("Digit7"@) == Some(0x1Au16),
        vk_for("Digit8"@) == Some(0x1Cu16),
        vk_for("Digit9"@) == Some(0x19u16),
{
    reveal_strlit("Digit1");
    reveal_strlit("Digit2");
    reveal_strlit("Digit3");
    reveal_strlit("Digit4");
    reveal_strlit("Digit6");
    reveal_strlit("Digit5");
    reveal_strlit("Digit9");
    reveal_strlit("Digit7");
    reveal_strlit("Digit8");
    reveal_strlit("Digit0");
    assert("Digit1"@[5] == '1');
    assert("Digit2"@[5] == '2');
    assert("Digit3"@[5] == '3');
    assert("Digit4"@[5] == '4');
    assert("Digit6"@[5] == '6');
    assert("Digit5"@[5] == '5');
    assert("Digit9"@[5] == '9');
    assert("Digit7"@[5] == '7');
    assert("Digit8"@[5] == '8');
    assert("Digit0"@[5] == '0');
    assert("Digit1"@[0] == 'D' && "Digit1"@[1] == 'i');
    lemma_letter_shape("Digit1"@);
    assert("Digit2"@[0] == 'D' && "Digit2"@[1] == 'i');
    lemma_letter_shape("Digit2"@);
    assert("Digit3"@[0] == 'D' && "Digit3"@[1] == 'i');
    lemma_letter_shape("Digit3"@);
    assert("Digit4"@[0] == 'D' && "Digit4"@[1] == 'i');
    lemma_letter_shape("Digit4"@);
    assert("Digit6"@[0] == 'D' && "Digit6"@[1] == 'i');
    lemma_letter_shape("Digit6"@);
    assert("Digit5"@[0] == 'D' && "Digit5"@[1] == 'i');
    lemma_letter_shape("Digit5"@);
    assert("Digit9"@[0] == 'D' && "Digit9"@[1] == 'i');
    lemma_letter_shape("Digit9"@);
    assert("Digit7"@[0] == 'D' && "Digit7"@[1] == 'i');
    lemma_letter_shape("Digit7"@);
    assert("Digit8"@[0] == 'D' && "Digit8"@[1] == 'i');
    lemma_letter_shape("Digit8"@);
    assert("Digit0"@[0] == 'D' && "Digit0"@[1] == 'i');
    lemma_letter_shape("Digit0"@);
}

/// The function keys.
#[verifier::rlimit(30)]
pub proof fn law_function_keys()
    ensures
        vk_for("F1"@) == Some(0x7Au16),
        vk_for("F2"@) == Some(0x78u16),
        vk_for("F3"@) == Some(0x63u16),
        vk_for("F4"@) == Some(0x76u16),
        vk_for("F5"@) == Some(0x60u16),
        vk_for("F6"@) == Some(0x61u16),
        vk_for("F7"@) == Some(0x62u16),
        vk_for("F8"@) == Some(0x64u16),
        vk_for("F9"@) == Some(0x65u16),
        vk_for("F10"@) == Some(0x6Du16),
        vk_for("F11"@) == Some(0x67u16),
        vk_for("F12"@) == Some(0x6Fu16),
        vk_for("F13"@) == Some(0x69u16),
        vk_for("F14"@) == Some(0x6Bu16),
        vk_for("F15"@) == Some(0x71u16),
        vk_for("F16"@) == Some(0x6Au16),
        vk_for("F17"@) == Some(0x40u16),
        vk_for("F18"@) == Some(0x4Fu16),
        vk_for("F19"@) == Some(0x50u16),
        vk_for("F20"@) == Some(0x5Au16),
{
    reveal_strlit("F17");
    reveal_strlit("F18");
    reveal_strlit("F19");
    reveal_strlit("F20");
    reveal_strlit("F5");
    reveal_strlit("F6");
    reveal_strlit("F7");
    reveal_strlit("F3");
    reveal_strlit("F8");
    reveal_strlit("F9");
    reveal_strlit("F11");
    reveal_strlit("F13");
    reveal_strlit("F16");
    reveal_strlit("F14");
    reveal_strlit("F10");
    reveal_strlit("F12");
    reveal_strlit("F15");
    reveal_strlit("F4");
    reveal_strlit("F2");
    reveal_strlit("F1");
    assert("F17"@.len() == 3 && "F17"@[1] == '1' && "F17"@[2] == '7');
    assert("F18"@.len() == 3 && "F18"@[1] == '1' && "F18"@[2] == '8');
    assert("F19"@.len() == 3 && "F19"@[1] == '1' && "F19"@[2] == '9');
    assert("F20"@.len() == 3 && "F20"@[1] == '2');
    assert("F5"@.len() == 2 && "F5"@[1] == '5');
    assert("F6"@.len() == 2 && "F6"@[1] == '6');
    assert("F7"@.len() == 2 && "F7"@[1] == '7');
    assert("F3"@.len() == 2 && "F3"@[1] == '3');
    assert("F8"@.len() == 2 && "F8"@[1] == '8');
    assert("F9"@.len() == 2 && "F9"@[1] == '9');
    assert("F11"@.len() == 3 && "F11"@[1] == '1' && "F11"@[2] == '1');
    assert("F13"@.len() == 3 && "F13"@[1] == '1' && "F13"@[2] == '3');
    assert("F16"@.len() == 3 && "F16"@[1] == '1' && "F16"@[2] == '6');
    assert("F14"@.len() == 3 && "F14"@[1] == '1' && "F14"@[2] == '4');
    assert("F10"@.len() == 3 && "F10"@[1] == '1' && "F10"@[2] == '0');
    assert("F12"@.len() == 3 && "F12"@[1] == '1' && "F12"@[2] == '2');
    assert("F15"@.len() == 3 && "F15"@[1] == '1' && "F15"@[2] == '5');
    assert("F4"@.len() == 2 && "F4"@[1] == '4');
    assert("F2"@.len() == 2 && "F2"@[1] == '2');
    assert("F1"@.len() == 2 && "F1"@[1] == '1');
    assert("F17"@[0] == 'F' && "F17"@[1] == '1');
    lemma_letter_shape("F17"@);
    lemma_digit_shape("F17"@);
    assert("F18"@[0] == 'F' && "F18"@[1] == '1');
    lemma_letter_shape("F18"@);
    lemma_digit_shape("F18"@);
    assert("F19"@[0] == 'F' && "F19"@[1] == '1');
    lemma_letter_shape("F19"@);
    lemma_digit_shape("F19"@);
    assert("F20"@[0] == 'F' && "F20"@[1] == '2');
    lemma_letter_shape("F20"@);
    lemma_digit_shape("F20"@);
    assert("F5"@[0] == 'F' && "F5"@[1] == '5');
    lemma_letter_shape("F5"@);
    lemma_digit_shape("F5"@);
    assert("F6"@[0] == 'F' && "F6"@[1] == '6');
    lemma_letter_shape("F6"@);
    lemma_digit_shape("F6"@);
    assert("F7"@[0] == 'F' && "F7"@[1] == '7');
    lemma_letter_shape("F7"@);
    lemma_digit_shape("F7"@);
    assert("F3"@[0] == 'F' && "F3"@[1] == '3');
    lemma_letter_shape("F3"@);
    lemma_digit_shape("F3"@);
    assert("F8"@[0] == 'F' && "F8"@[1] == '8');
    lemma_letter_shape("F8"@);
    lemma_digit_shape("F8"@);
    assert("F9"@[0] == 'F' && "F9"@[1] == '9');
    lemma_letter_shape("F9"@);
    lemma_digit_shape("F9"@);
    assert("F11"@[0] == 'F' && "F11"@[1] == '1');
    lemma_letter_shape("F11"@);
    lemma_digit_shape("F11"@);
    assert("F13"@[0] == 'F' && "F13"@[1] == '1');
    lemma_letter_shape("F13"@);
    lemma_digit_shape("F13"@);
    assert("F16"@[0] == 'F' && "F16"@[1] == '1');
    lemma_letter_shape("F16"@);
    lemma_digit_shape("F16"@);
    assert("F14"@[0] == 'F' && "F14"@[1] == '1');
    lemma_letter_shape("F14"@);
    lemma_digit_shape("F14"@);
    assert("F10"@[0] == 'F' && "F10"@[1] == '1');
    lemma_letter_shape("F10"@);
    lemma_digit_shape("F10"@);
    assert("F12"@[0] == 'F' && "F12"@[1] == '1');
    lemma_letter_shape("F12"@);
    lemma_digit_shape("F12"@);
    assert("F15"@[0] == 'F' && "F15"@[1] == '1');
    lemma_letter_shape("F15"@);
    lemma_digit_shape("F15"@);
    assert("F4"@[0] == 'F' && "F4"@[1] == '4');
    lemma_letter_shape("F4"@);
    lemma_digit_shape("F4"@);
    assert("F2"@[0] == 'F' && "F2"@[1] == '2');
    lemma_letter_shape("F2"@);
    lemma_digit_shape("F2"@);
    assert("F1"@[0] == 'F' && "F1"@[1] == '1');
    lemma_letter_shape("F1"@);
    lemma_digit_shape("F1"@);
}

/// The keys of the number pad.
#[verifier::rlimit(30)]
pub proof fn law_numpad_keys()
    ensures
        vk_for("NumLock"@) == Some(0x47u16),
        vk_for("Numpad0"@) == Some(0x52u16),
        vk_for("Numpad1"@) == Some(0x53u16),
        vk_for("Numpad2"@) == Some(0x54u16),
        vk_for("Numpad3"@) == Some(0x55u16),
        vk_for("Numpad4"@) == Some(0x56u16),
        vk_for("Numpad5"@) == Some(0x57u16),
        vk_for("Numpad6"@) == Some(0x58u16),
        vk_for("Numpad7"@) == Some(0x59u16),
        vk_for("Numpad8"@) == Some(0x5Bu16),
        vk_for("Numpad9"@) == Some(0x5Cu16),
        vk_for("NumpadAdd"@) == Some(0x45u16),
        vk_for("NumpadComma"@) == Some(0x5Fu16),
        vk_for("NumpadDecimal"@) == Some(0x41u16),
        vk_for("NumpadDivide"@) == Some(0x4Bu16),
        vk_for("NumpadEnter"@) == Some(0x4Cu16),
        vk_for("NumpadEqual"@) == Some(0x51u16),
        vk_for("NumpadMultiply"@) == Some(0x43u16),
        vk_for("NumpadSubtract"@) == Some(0x4Eu16),
{
    reveal_strlit("NumpadDecimal");
    reveal_strlit("NumpadMultiply");
    reveal_strlit("NumpadAdd");
    reveal_strlit("NumLock");
    reveal_strlit("NumpadDivide");
    reveal_strlit("NumpadEnter");
    reveal_strlit("NumpadSubtract");
    reveal_strlit("NumpadEqual");
    reveal_strlit("Numpad0");
    reveal_strlit("Numpad1");
    reveal_strlit("Numpad2");
    reveal_strlit("Numpad3");
    reveal_strlit("Numpad4");
    reveal_strlit("Numpad5");
    reveal_strlit("Numpad6");
    reveal_strlit("Numpad7");
    reveal_strlit("Numpad8");
    reveal_strlit("Numpad9");
    reveal_strlit("NumpadComma");
    assert("NumpadDecimal"@.len() == 13);
    assert("NumpadMultiply"@.len() == 14 && "NumpadMultiply"@[6] == 'M');
    assert("NumpadAdd"@.len() == 9);
    assert("NumLock"@.len() == 7 && "NumLock"@[3] == 'L');
    assert("NumpadDivide"@.len() == 12);
    assert("NumpadEnter"@.len() == 11 && "NumpadEnter"@[6] == 'E' && "NumpadEnter"@[7] == 'n');
    assert("NumpadSubtract"@.len() == 14 && "NumpadSubtract"@[6] == 'S');
    assert("NumpadEqual"@.len() == 11 && "NumpadEqual"@[6] == 'E' && "NumpadEqual"@[7] == 'q');
    assert("Numpad0"@.len() == 7 && "Numpad0"@[3] == 'p' && "Numpad0"@[6] == '0');
    assert("Numpad1"@.len() == 7 && "Numpad1"@[3] == 'p' && "Numpad1"@[6] == '1');
    assert("Numpad2"@.len() == 7 && "Numpad2"@[3] == 'p' && "Numpad2"@[6] == '2');
    assert("Numpad3"@.len() == 7 && "Numpad3"@[3] == 'p' && "Numpad3"@[6] == '3');
    assert("Numpad4"@.len() == 7 && "Numpad4"@[3] == 'p' && "Numpad4"@[6] == '4');
    assert("Numpad5"@.len() == 7 && "Numpad5"@[3] == 'p' && "Numpad5"@[6] == '5');
    assert("Numpad6"@.len() == 7 && "Numpad6"@[3] == 'p' && "Numpad6"@[6] == '6');
    assert("Numpad7"@.len() == 7 && "Numpad7"@[3] == 'p' && "Numpad7"@[6] == '7');
    assert("Numpad8"@.len() == 7 && "Numpad8"@[3] == 'p' && "Numpad8"@[6] == '8');
    assert("Numpad9"@.len() == 7 && "Numpad9"@[3] == 'p' && "Numpad9"@[6] == '9');
    assert("NumpadComma"@.len() == 11 && "NumpadComma"@[6] == 'C');
    assert("NumpadDecimal"@[0] == 'N' && "NumpadDecimal"@[1] == 'u');
    lemma_letter_shape("NumpadDecimal"@);
    lemma_digit_shape("NumpadDecimal"@);
    lemma_function_shape("NumpadDecimal"@);
    assert("NumpadMultiply"@[0] == 'N' && "NumpadMultiply"@[1] == 'u');
    lemma_letter_shape("NumpadMultiply"@);
    lemma_digit_shape("NumpadMultiply"@);
    lemma_function_shape("NumpadMultiply"@);
    assert("NumpadAdd"@[0] == 'N' && "NumpadAdd"@[1] == 'u');
    lemma_letter_shape("NumpadAdd"@);
    lemma_digit_shape("NumpadAdd"@);
    lemma_function_shape("NumpadAdd"@);
    assert("NumLock"@[0] == 'N' && "NumLock"@[1] == 'u');
    lemma_letter_shape("NumLock"@);
    lemma_digit_shape("NumLock"@);
    lemma_function_shape("NumLock"@);
    assert("NumpadDivide"@[0] == 'N' && "NumpadDivide"@[1] == 'u');
    lemma_letter_shape("NumpadDivide"@);
    lemma_digit_shape("NumpadDivide"@);
    lemma_function_shape("NumpadDivide"@);
    assert("NumpadEnter"@[0] == 'N' && "NumpadEnter"@[1] == 'u');
    lemma_letter_shape("NumpadEnter"@);
    lemma_digit_shape("NumpadEnter"@);
    lemma_function_shape("NumpadEnter"@);
    assert("NumpadSubtract"@[0] == 'N' && "NumpadSubtract"@[1] == 'u');
    lemma_letter_shape("NumpadSubtract"@);
    lemma_digit_shape("NumpadSubtract"@);
    lemma_function_shape("NumpadSubtract"@);
    assert("NumpadEqual"@[0] == 'N' && "NumpadEqual"@[1] == 'u');
    lemma_letter_shape("NumpadEqual"@);
    lemma_digit_shape("NumpadEqual"@);
    lemma_function_shape("NumpadEqual"@);
    assert("Numpad0"@[0] == 'N' && "Numpad0"@[1] == 'u');
    lemma_letter_shape("Numpad0"@);
    lemma_digit_shape("Numpad0"@);
    lemma_function_shape("Numpad0"@);
    assert("Numpad1"@[0] == 'N' && "Numpad1"@[1] == 'u');
    lemma_letter_shape("Numpad1"@);
    lemma_digit_shape("Numpad1"@);
    lemma_function_shape("Numpad1"@);
    assert("Numpad2"@[0] == 'N' && "Numpad2"@[1] == 'u');
    lemma_letter_shape("Numpad2"@);
    lemma_digit_shape("Numpad2"@);
    lemma_function_shape("Numpad2"@);
    assert("Numpad3"@[0] == 'N' && "Numpad3"@[1] == 'u');
    lemma_letter_shape("Numpad3"@);
    lemma_digit_shape("Numpad3"@);
    lemma_function_shape("Numpad3"@);
    assert("Numpad4"@[0] == 'N' && "Numpad4"@[1] == 'u');
    lemma_letter_shape("Numpad4"@);
    lemma_digit_shape("Numpad4"@);
    lemma_function_shape("Numpad4"@);
    assert("Numpad5"@[0] == 'N' && "Numpad5"@[1] == 'u');
    lemma_letter_shape("Numpad5"@);
    lemma_digit_shape("Numpad5"@);
    lemma_function_shape("Numpad5"@);
    assert("Numpad6"@[0] == 'N' && "Numpad6"@[1] == 'u');
    lemma_letter_shape("Numpad6"@);
    lemma_digit_shape("Numpad6"@);
    lemma_function_shape("Numpad6"@);
    assert("Numpad7"@[0] == 'N' && "Numpad7"@[1] == 'u');
    lemma_letter_shape("Numpad7"@);
    lemma_digit_shape("Numpad7"@);
    lemma_function_shape("Numpad7"@);
    assert("Numpad8"@[0] == 'N' && "Numpad8"@[1] == 'u');
    lemma_letter_shape("Numpad8"@);
    lemma_digit_shape("Numpad8"@);
    lemma_function_shape("Numpad8"@);
    assert("Numpad9"@[0] == 'N' && "Numpad9"@[1] == 'u');
    lemma_letter_shape("Numpad9"@);
    lemma_digit_shape("Numpad9"@);
    lemma_function_shape("Numpad9"@);
    assert("NumpadComma"@[0] == 'N' && "NumpadComma"@[1] == 'u');
    lemma_letter_shape("NumpadComma"@);
    lemma_digit_shape("NumpadComma"@);
    lemma_function_shape("NumpadComma"@);
}

/// The punctuation keys, with those that only international keyboards have.
#[verifier::rlimit(30)]
pub proof fn law_punctuation_keys()
    ensures
        vk_for("Backquote"@) == Some(0x32u16),
        vk_for("Backslash"@) == Some(0x2Au16),
        vk_for("BracketLeft"@) == Some(0x21u16),
        vk_for("BracketRight"@) == Some(0x1Eu16),
        vk_for("Comma"@) == Some(0x2Bu16),
        vk_for("Equal"@) == Some(0x18u16),
        vk_for("IntlBackslash"@) == Some(0x0Au16),
        vk_for("IntlRo"@) == Some(0x5Eu16),
        vk_for("IntlYen"@) == Some(0x5Du16),
        vk_for("Minus"@) == Some(0x1Bu16),
        vk_for("Period"@) == Some(0x2Fu16),
        vk_for("Quote"@) == Some(0x27u16),
        vk_for("Semicolon"@) == Some(0x29u16),
        vk_for("Slash"@) == Some(0x2Cu16),
{
    reveal_strlit("IntlBackslash");
    reveal_strlit("Equal");
    reveal_strlit("Minus");
    reveal_strlit("BracketRight");
    reveal_strlit("BracketLeft");
    reveal_strlit("Quote");
    reveal_strlit("Semicolon");
    reveal_strlit("Backslash");
    reveal_strlit("Comma");
    reveal_strlit("Slash");
    reveal_strlit("Period");
    reveal_strlit("Backquote");
    reveal_strlit("IntlYen");
    reveal_strlit("IntlRo");
    assert("IntlBackslash"@.len() == 13);
    assert("Equal"@.len() == 5 && "Equal"@[0] == 'E');
    assert("Minus"@.len() == 5 && "Minus"@[0] == 'M');
    assert("BracketRight"@.len() == 12);
    assert("BracketLeft"@.len() == 11);
    assert("Quote"@.len() == 5 && "Quote"@[0] == 'Q');
    assert("Semicolon"@.len() == 9 && "Semicolon"@[0] == 'S');
    assert("Backslash"@.len() == 9 && "Backslash"@[0] == 'B' && "Backslash"@[4] == 's');
    assert("Comma"@.len() == 5 && "Comma"@[0] == 'C');
    assert("Slash"@.len() == 5 && "Slash"@[0] == 'S');
    assert("Period"@.len() == 6 && "Period"@[0] == 'P');
    assert("Backquote"@.len() == 9 && "Backquote"@[0] == 'B' && "Backquote"@[4] == 'q');
    assert("IntlYen"@.len() == 7);
    assert("IntlRo"@.len() == 6 && "IntlRo"@[0] == 'I');
    assert("IntlBackslash"@[0] == 'I' && "IntlBackslash"@[1] == 'n');
    lemma_letter_shape("IntlBackslash"@);
    lemma_digit_shape("IntlBackslash"@);
    lemma_function_shape("IntlBackslash"@);
    lemma_numpad_shape("IntlBackslash"@);
    assert("Equal"@[0] == 'E' && "Equal"@[1] == 'q');
    lemma_letter_shape("Equal"@);
    lemma_digit_shape("Equal"@);
    lemma_function_shape("Equal"@);
    lemma_numpad_shape("Equal"@);
    assert("Minus"@[0] == 'M' && "Minus"@[1] == 'i');
    lemma_letter_shape("Minus"@);
    lemma_digit_shape("Minus"@);
    lemma_function_shape("Minus"@);
    lemma_numpad_shape("Minus"@);
    assert("BracketRight"@[0] == 'B' && "BracketRight"@[1] == 'r');
    lemma_letter_shape("BracketRight"@);
    lemma_digit_shape("BracketRight"@);
    lemma_function_shape("BracketRight"@);
    lemma_numpad_shape("BracketRight"@);
    assert("BracketLeft"@[0] == 'B' && "BracketLeft"@[1] == 'r');
    lemma_letter_shape("BracketLeft"@);
    lemma_digit_shape("BracketLeft"@);
    lemma_function_shape("BracketLeft"@);
    lemma_numpad_shape("BracketLeft"@);
    assert("Quote"@[0] == 'Q' && "Quote"@[1] == 'u');
    lemma_letter_shape("Quote"@);
    lemma_digit_shape("Quote"@);
    lemma_function_shape("Quote"@);
    lemma_numpad_shape("Quote"@);
    assert("Semicolon"@[0] == 'S' && "Semicolon"@[1] == 'e');
    lemma_letter_shape("Semicolon"@);
    lemma_digit_shape("Semicolon"@);
    lemma_function_shape("Semicolon"@);
    lemma_numpad_shape("Semicolon"@);
    assert("Backslash"@[0] == 'B' && "Backslash"@[1] == 'a');
    lemma_letter_shape("Backslash"@);
    lemma_digit_shape("Backslash"@);
    lemma_function_shape("Backslash"@);
    lemma_numpad_shape("Backslash"@);
    assert("Comma"@[0] == 'C' && "Comma"@[1] == 'o');
    lemma_letter_shape("Comma"@);
    lemma_digit_shape("Comma"@);
    lemma_function_shape("Comma"@);
    lemma_numpad_shape("Comma"@);
    assert("Slash"@[0] == 'S' && "Slash"@[1] == 'l');
    lemma_letter_shape("Slash"@);
    lemma_digit_shape("Slash"@);
    lemma_function_shape("Slash"@);
    lemma_numpad_shape("Slash"@);
    assert("Period"@[0] == 'P' && "Period"@[1] == 'e');
    lemma_letter_shape("Period"@);
    lemma_digit_shape("Period"@);
    lemma_function_shape("Period"@);
    lemma_numpad_shape("Period"@);
    assert("Backquote"@[0] == 'B' && "Backquote"@[1] == 'a');
    lemma_letter_shape("Backquote"@);
    lemma_digit_shape("Backquote"@);
    lemma_function_shape("Backquote"@);
    lemma_numpad_shape("Backquote"@);
    assert("IntlYen"@[0] == 'I' && "IntlYen"@[1] == 'n');
    lemma_letter_shape("IntlYen"@);
    lemma_digit_shape("IntlYen"@);
    lemma_function_shape("IntlYen"@);
    lemma_numpad_shape("IntlYen"@);
    assert("IntlRo"@[0] == 'I' && "IntlRo"@[1] == 'n');
    lemma_letter_shape("IntlRo"@);
    lemma_digit_shape("IntlRo"@);
    lemma_function_shape("IntlRo"@);
    lemma_numpad_shape("IntlRo"@);
}

/// The keys that type nothing, the modifiers and the arrows, with Enter, Tab and Space.
#[verifier::rlimit(60)]
pub proof fn law_control_keys()
    ensures
        vk_for("AltLeft"@) == Some(0x3Au16),
        vk_for("AltRight"@) == Some(0x3Du16),
        vk_for("ArrowDown"@) == Some(0x7Du16),
        vk_for("ArrowLeft"@) == Some(0x7Bu16),
        vk_for("ArrowRight"@) == Some(0x7Cu16),
        vk_for("ArrowUp"@) == Some(0x7Eu16),
        vk_for("Backspace"@) == Some(0x33u16),
        vk_for("CapsLock"@) == Some(0x39u16),
        vk_for("ContextMenu"@) == Some(0x6Eu16),
        vk_for("ControlLeft"@) == Some(0x3Bu16),
        vk_for("ControlRight"@) == Some(0x3Eu16),
        vk_for("Delete"@) == Some(0x75u16),
        vk_for("End"@) == Some(0x77u16),
        vk_for("Enter"@) == Some(0x24u16),
        vk_for("Escape"@) == Some(0x35u16),
        vk_for("Help"@) == Some(0x72u16),
        vk_for("Home"@) == Some(0x73u16),
        vk_for("Insert"@) == Some(0x72u16),
        vk_for("Lang1"@) == Some(0x68u16),
        vk_for("Lang2"@) == Some(0x66u16),
        vk_for("MetaLeft"@) == Some(0x37u16),
        vk_for("MetaRight"@) == Some(0x36u16),
        vk_for("PageDown"@) == Some(0x79u16),
        vk_for("PageUp"@) == Some(0x74u16),
        vk_for("ShiftLeft"@) == Some(0x38u16),
        vk_for("ShiftRight"@) == Some(0x3Cu16),
        vk_for("Space"@) == Some(0x31u16),
        vk_for("Tab"@) == Some(0x30u16),
{
    reveal_strlit("IntlBackslash");
    reveal_strlit("Equal");
    reveal_strlit("Minus");
    reveal_strlit("BracketRight");
    reveal_strlit("BracketLeft");
    reveal_strlit("Quote");
    reveal_strlit("Semicolon");
    reveal_strlit("Backslash");
    reveal_strlit("Comma");
    reveal_strlit("Slash");
    reveal_strlit("Period");
    reveal_strlit("Backquote");
    reveal_strlit("IntlYen");
    reveal_strlit("IntlRo");
    reveal_strlit("Enter");
    reveal_strlit("Tab");
    reveal_strlit("Space");
    reveal_strlit("Backspace");
    reveal_strlit("Escape");
    reveal_strlit("MetaRight");
    reveal_strlit("MetaLeft");
    reveal_strlit("ShiftLeft");
    reveal_strlit("CapsLock");
    reveal_strlit("AltLeft");
    reveal_strlit("ControlLeft");
    reveal_strlit("ShiftRight");
    reveal_strlit("AltRight");
    reveal_strlit("ControlRight");
    reveal_strlit("Lang2");
    reveal_strlit("Lang1");
    reveal_strlit("ContextMenu");
    reveal_strlit("Insert");
    reveal_strlit("Help");
    reveal_strlit("Home");
    reveal_strlit("PageUp");
    reveal_strlit("Delete");
    reveal_strlit("End");
    reveal_strlit("PageDown");
    reveal_strlit("ArrowLeft");
    reveal_strlit("ArrowRight");
    reveal_strlit("ArrowDown");
    reveal_strlit("ArrowUp");
    assert("IntlBackslash"@.len() == 13);
    assert("Equal"@.len() == 5 && "Equal"@[0] == 'E' && "Equal"@[1] == 'q');
    assert("Minus"@.len() == 5 && "Minus"@[0] == 'M');
    assert("BracketRight"@.len() == 12 && "BracketRight"@[0] == 'B');
    assert("BracketLeft"@.len() == 11 && "BracketLeft"@[0] == 'B');
    assert("Quote"@.len() == 5 && "Quote"@[0] == 'Q');
    assert("Semicolon"@.len() == 9 && "Semicolon"@[0] == 'S' && "Semicolon"@[1] == 'e');
    assert("Backslash"@.len() == 9 && "Backslash"@[0] == 'B' && "Backslash"@[4] == 's' && "Backslash"@[5] == 'l');
    assert("Comma"@.len() == 5 && "Comma"@[0] == 'C');
    assert("Slash"@.len() == 5 && "Slash"@[0] == 'S' && "Slash"@[1] == 'l');
    assert("Period"@.len() == 6 && "Period"@[0] == 'P' && "Period"@[1] == 'e');
    assert("Backquote"@.len() == 9 && "Backquote"@[0] == 'B' && "Backquote"@[4] == 'q');
    assert("IntlYen"@.len() == 7 && "IntlYen"@[0] == 'I');
    assert("IntlRo"@.len() == 6 && "IntlRo"@[0] == 'I' && "IntlRo"@[2] == 't');
    assert("Enter"@.len() == 5 && "Enter"@[0] == 'E' && "Enter"@[1] == 'n');
    assert("Tab"@.len() == 3 && "Tab"@[0] == 'T');
    assert("Space"@.len() == 5 && "Space"@[0] == 'S' && "Space"@[1] == 'p');
    assert("Backspace"@.len() == 9 && "Backspace"@[0] == 'B' && "Backspace"@[4] == 's' && "Backspace"@[5] == 'p');
    assert("Escape"@.len() == 6 && "Escape"@[0] == 'E');
    assert("MetaRight"@.len() == 9 && "MetaRight"@[0] == 'M');
    assert("MetaLeft"@.len() == 8 && "MetaLeft"@[0] == 'M');
    assert("ShiftLeft"@.len() == 9 && "ShiftLeft"@[0] == 'S' && "ShiftLeft"@[1] == 'h');
    assert("CapsLock"@.len() == 8 && "CapsLock"@[0] == 'C');
    assert("AltLeft"@.len() == 7 && "AltLeft"@[0] == 'A' && "AltLeft"@[1] == 'l');
    assert("ControlLeft"@.len() == 11 && "ControlLeft"@[0] == 'C' && "ControlLeft"@[4] == 'r');
    assert("ShiftRight"@.len() == 10 && "ShiftRight"@[0] == 'S');
    assert("AltRight"@.len() == 8 && "AltRight"@[0] == 'A');
    assert("ControlRight"@.len() == 12 && "ControlRight"@[0] == 'C');
    assert("Lang2"@.len() == 5 && "Lang2"@[0] == 'L' && "Lang2"@[4] == '2');
    assert("Lang1"@.len() == 5 && "Lang1"@[0] == 'L' && "Lang1"@[4] == '1');
    assert("ContextMenu"@.len() == 11 && "ContextMenu"@[0] == 'C' && "ContextMenu"@[4] == 'e');
    assert("Insert"@.len() == 6 && "Insert"@[0] == 'I' && "Insert"@[2] == 's');
    assert("Help"@.len() == 4 && "Help"@[1] == 'e');
    assert("Home"@.len() == 4 && "Home"@[1] == 'o');
    assert("PageUp"@.len() == 6 && "PageUp"@[0] == 'P' && "PageUp"@[1] == 'a');
    assert("Delete"@.len() == 6 && "Delete"@[0] == 'D');
    assert("End"@.len() == 3 && "End"@[0] == 'E');
    assert("PageDown"@.len() == 8 && "PageDown"@[0] == 'P');
    assert("ArrowLeft"@.len() == 9 && "ArrowLeft"@[0] == 'A' && "ArrowLeft"@[5] == 'L');
    assert("ArrowRight"@.len() == 10 && "ArrowRight"@[0] == 'A');
    assert("ArrowDown"@.len() == 9 && "ArrowDown"@[0] == 'A' && "ArrowDown"@[5] == 'D');
    assert("ArrowUp"@.len() == 7 && "ArrowUp"@[0] == 'A' && "ArrowUp"@[1] == 'r');
    assert("Enter"@[0] == 'E' && "Enter"@[1] == 'n');
    lemma_letter_shape("Enter"@);
    lemma_digit_shape("Enter"@);
    lemma_function_shape("Enter"@);
    lemma_numpad_shape("Enter"@);
    assert("Tab"@[0] == 'T' && "Tab"@[1] == 'a');
    lemma_letter_shape("Tab"@);
    lemma_digit_shape("Tab"@);
    lemma_function_shape("Tab"@);
    lemma_numpad_shape("Tab"@);
    assert("Space"@[0] == 'S' && "Space"@[1] == 'p');
    lemma_letter_shape("Space"@);
    lemma_digit_shape("Space"@);
    lemma_function_shape("Space"@);
    lemma_numpad_shape("Space"@);
    assert("Backspace"@[0] == 'B' && "Backspace"@[1] == 'a');
    lemma_letter_shape("Backspace"@);
    lemma_digit_shape("Backspace"@);
    lemma_function_shape("Backspace"@);
    lemma_numpad_shape("Backspace"@);
    assert("Escape"@[0] == 'E' && "Escape"@[1] == 's');
    lemma_letter_shape("Escape"@);
    lemma_digit_shape("Escape"@);
    lemma_function_shape("Escape"@);
    lemma_numpad_shape("Escape"@);
    assert("MetaRight"@[0] == 'M' && "MetaRight"@[1] == 'e');
    lemma_letter_shape("MetaRight"@);
    lemma_digit_shape("MetaRight"@);
    lemma_function_shape("MetaRight"@);
    lemma_numpad_shape("MetaRight"@);
    assert("MetaLeft"@[0] == 'M' && "MetaLeft"@[1] == 'e');
    lemma_letter_shape("MetaLeft"@);
    lemma_digit_shape("MetaLeft"@);
    lemma_function_shape("MetaLeft"@);
    lemma_numpad_shape("MetaLeft"@);
    assert("ShiftLeft"@[0] == 'S' && "ShiftLeft"@[1] == 'h');
    lemma_letter_shape("ShiftLeft"@);
    lemma_digit_shape("ShiftLeft"@);
    lemma_function_shape("ShiftLeft"@);
    lemma_numpad_shape("ShiftLeft"@);
    assert("CapsLock"@[0] == 'C' && "CapsLock"@[1] == 'a');
    lemma_letter_shape("CapsLock"@);
    lemma_digit_shape("CapsLock"@);
    lemma_function_shape("CapsLock"@);
    lemma_numpad_shape("CapsLock"@);
    assert("AltLeft"@[0] == 'A' && "AltLeft"@[1] == 'l');
    lemma_letter_shape("AltLeft"@);
    lemma_digit_shape("AltLeft"@);
    lemma_function_shape("AltLeft"@);
    lemma_numpad_shape("AltLeft"@);
    assert("ControlLeft"@[0] == 'C' && "ControlLeft"@[1] == 'o');
    lemma_letter_shape("ControlLeft"@);
    lemma_digit_shape("ControlLeft"@);
    lemma_function_shape("ControlLeft"@);
    lemma_numpad_shape("ControlLeft"@);
    assert("ShiftRight"@[0] == 'S' && "ShiftRight"@[1] == 'h');
    lemma_letter_shape("ShiftRight"@);
    lemma_digit_shape("ShiftRight"@);
    lemma_function_shape("ShiftRight"@);
    lemma_numpad_shape("ShiftRight"@);
    assert("AltRight"@[0] == 'A' && "AltRight"@[1] == 'l');
    lemma_letter_shape("AltRight"@);
    lemma_digit_shape("AltRight"@);
    lemma_function_shape("AltRight"@);
    lemma_numpad_shape("AltRight"@);
    assert("ControlRight"@[0] == 'C' && "ControlRight"@[1] == 'o');
    lemma_letter_shape("ControlRight"@);
    lemma_digit_shape("ControlRight"@);
    lemma_function_shape("ControlRight"@);
    lemma_numpad_shape("ControlRight"@);
    assert("Lang2"@[0] == 'L' && "Lang2"@[1] == 'a');
    lemma_letter_shape("Lang2"@);
    lemma_digit_shape("Lang2"@);
    lemma_function_shape("Lang2"@);
    lemma_numpad_shape("Lang2"@);
    assert("Lang1"@[0] == 'L' && "Lang1"@[1] == 'a');
    lemma_letter_shape("Lang1"@);
    lemma_digit_shape("Lang1"@);
    lemma_function_shape("Lang1"@);
    lemma_numpad_shape("Lang1"@);
    assert("ContextMenu"@[0] == 'C' && "ContextMenu"@[1] == 'o');
    lemma_letter_shape("ContextMenu"@);
    lemma_digit_shape("ContextMenu"@);
    lemma_function_shape("ContextMenu"@);
    lemma_numpad_shape("ContextMenu"@);
    assert("Insert"@[0] == 'I' && "Insert"@[1] == 'n');
    lemma_letter_shape("Insert"@);
    lemma_digit_shape("Insert"@);
    lemma_function_shape("Insert"@);
    lemma_numpad_shape("Insert"@);
    assert("Help"@[0] == 'H' && "Help"@[1] == 'e');
    lemma_letter_shape("Help"@);
    lemma_digit_shape("Help"@);
    lemma_function_shape("Help"@);
    lemma_numpad_shape("Help"@);
    assert("Home"@[0] == 'H' && "Home"@[1] == 'o');
    lemma_letter_shape("Home"@);
    lemma_digit_shape("Home"@);
    lemma_function_shape("Home"@);
    lemma_numpad_shape("Home"@);
    assert("PageUp"@[0] == 'P' && "PageUp"@[1] == 'a');
    lemma_letter_shape("PageUp"@);
    lemma_digit_shape("PageUp"@);
    lemma_function_shape("PageUp"@);
    lemma_numpad_shape("PageUp"@);
    assert("Delete"@[0] == 'D' && "Delete"@[1] == 'e');
    lemma_letter_shape("Delete"@);
    lemma_digit_shape("Delete"@);
    lemma_function_shape("Delete"@);
    lemma_numpad_shape("Delete"@);
    assert("End"@[0] == 'E' && "End"@[1] == 'n');
    lemma_letter_shape("End"@);
    lemma_digit_shape("End"@);
    lemma_function_shape("End"@);
    lemma_numpad_shape("End"@);
    assert("PageDown"@[0] == 'P' && "PageDown"@[1] == 'a');
    lemma_letter_shape("PageDown"@);
    lemma_digit_shape("PageDown"@);
    lemma_function_shape("PageDown"@);
    lemma_numpad_shape("PageDown"@);
    assert("ArrowLeft"@[0] == 'A' && "ArrowLeft"@[1] == 'r');
    lemma_letter_shape("ArrowLeft"@);
    lemma_digit_shape("ArrowLeft"@);
    lemma_function_shape("ArrowLeft"@);
    lemma_numpad_shape("ArrowLeft"@);
    assert("ArrowRight"@[0] == 'A' && "ArrowRight"@[1] == 'r');
    lemma_letter_shape("ArrowRight"@);
    lemma_digit_shape("ArrowRight"@);
    lemma_function_shape("ArrowRight"@);
    lemma_numpad_shape("ArrowRight"@);
    assert("ArrowDown"@[0] == 'A' && "ArrowDown"@[1] == 'r');
    lemma_letter_shape("ArrowDown"@);
    lemma_digit_shape("ArrowDown"@);
    lemma_function_shape("ArrowDown"@);
    lemma_numpad_shape("ArrowDown"@);
    assert("ArrowUp"@[0] == 'A' && "ArrowUp"@[1] == 'r');
    lemma_letter_shape("ArrowUp"@);
    lemma_digit_shape("ArrowUp"@);
    lemma_function_shape("ArrowUp"@);
    lemma_numpad_shape("ArrowUp"@);
}

/// Different keys have different virtual keys: only Insert and Help share one.
pub proof fn law_keys_are_distinct(a: Seq<char>, b: Seq<char>)
    requires
        vk_for(a) is Some,
        vk_for(a) == vk_for(b),
    ensures
        a == b || {
            &&& a == "Insert"@ || a == "Help"@
            &&& b == "Insert"@ || b == "Help"@
            &&& vk_for(a) == Some(0x72u16)
        },
{
}

/// No other code has a virtual key: browser and media keys, and anything that is
/// no key's name, map to nothing.
pub proof fn law_no_other_keys(code: Seq<char>)
    requires
        vk_for(code) is Some,
    ensures
        ({
            ||| code == "KeyA"@
            ||| code == "KeyS"@
            ||| code == "KeyD"@
            ||| code == "KeyF"@
            ||| code == "KeyH"@
            ||| code == "KeyG"@
            ||| code == "KeyZ"@
            ||| code == "KeyX"@
            ||| code == "KeyC"@
            ||| code == "KeyV"@
            ||| code == "IntlBackslash"@
            ||| code == "KeyB"@
            ||| code == "KeyQ"@
            ||| code == "KeyW"@
            ||| code == "KeyE"@
            ||| code == "KeyR"@
            ||| code == "KeyY"@
            ||| code == "KeyT"@
            ||| code == "Digit1"@
            ||| code == "Digit2"@
            ||| code == "Digit3"@
            ||| code == "Digit4"@
            ||| code == "Digit6"@
            ||| code == "Digit5"@
            ||| code == "Equal"@
            ||| code == "Digit9"@
            ||| code == "Digit7"@
            ||| code == "Minus"@
            ||| code == "Digit8"@
            ||| code == "Digit0"@
            ||| code == "BracketRight"@
            ||| code == "KeyO"@
            ||| code == "KeyU"@
            ||| code == "BracketLeft"@
            ||| code == "KeyI"@
            ||| code == "KeyP"@
            ||| code == "Enter"@
            ||| code == "KeyL"@
            ||| code == "KeyJ"@
            ||| code == "Quote"@
            ||| code == "KeyK"@
            ||| code == "Semicolon"@
            ||| code == "Backslash"@
            ||| code == "Comma"@
            ||| code == "Slash"@
            ||| code == "KeyN"@
            ||| code == "KeyM"@
            ||| code == "Period"@
            ||| code == "Tab"@
            ||| code == "Space"@
            ||| code == "Backquote"@
            ||| code == "Backspace"@
            ||| code == "Escape"@
            ||| code == "MetaRight"@
            ||| code == "MetaLeft"@
            ||| code == "ShiftLeft"@
            ||| code == "CapsLock"@
            ||| code == "AltLeft"@
            ||| code == "ControlLeft"@
            ||| code == "ShiftRight"@
            ||| code == "AltRight"@
            ||| code == "ControlRight"@
            ||| code == "F17"@
            ||| code == "NumpadDecimal"@
            ||| code == "NumpadMultiply"@
            ||| code == "NumpadAdd"@
            ||| code == "NumLock"@
            ||| code == "NumpadDivide"@
            ||| code == "NumpadEnter"@
            ||| code == "NumpadSubtract"@
            ||| code == "F18"@
            ||| code == "F19"@
            ||| code == "NumpadEqual"@
            ||| code == "Numpad0"@
            ||| code == "Numpad1"@
            ||| code == "Numpad2"@
            ||| code == "Numpad3"@
            ||| code == "Numpad4"@
            ||| code == "Numpad5"@
            ||| code == "Numpad6"@
            ||| code == "Numpad7"@
            ||| code == "F20"@
            ||| code == "Numpad8"@
            ||| code == "Numpad9"@
            ||| code == "IntlYen"@
            ||| code == "IntlRo"@
            ||| code == "NumpadComma"@
            ||| code == "F5"@
            ||| code == "F6"@
            ||| code == "F7"@
            ||| code == "F3"@
            ||| code == "F8"@
            ||| code == "F9"@
            ||| code == "Lang2"@
            ||| code == "F11"@
            ||| code == "Lang1"@
            ||| code == "F13"@
            ||| code == "F16"@
            ||| code == "F14"@
            ||| code == "F10"@
            ||| code == "ContextMenu"@
            ||| code == "F12"@
            ||| code == "F15"@
            ||| code == "Insert"@
            ||| code == "Help"@
            ||| code == "Home"@
            ||| code == "PageUp"@
            ||| code == "Delete"@
            ||| code == "F4"@
            ||| code == "End"@
            ||| code == "F2"@
            ||| code == "PageDown"@
            ||| code == "F1"@
            ||| code == "ArrowLeft"@
            ||| code == "ArrowRight"@
            ||| code == "ArrowDown"@
            ||| code == "ArrowUp"@
        }),
{
}

} // verus!
