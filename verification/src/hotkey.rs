//! Hotkey identifiers and human-readable hotkey names.
use vstd::prelude::*;
use crate::keycodes::{
    MOD_ALT, MOD_CONTROL, MOD_SHIFT, MOD_WIN, VK_0, VK_9, VK_A, VK_ADD, VK_BACK, VK_DECIMAL, VK_DELETE,
    VK_DIVIDE, VK_DOWN, VK_END, VK_ESCAPE, VK_F1, VK_F12, VK_HOME, VK_INSERT, VK_LEFT, VK_MULTIPLY,
    VK_NEXT, VK_NUMPAD0, VK_NUMPAD9, VK_OEM_1, VK_OEM_2, VK_OEM_3, VK_OEM_4, VK_OEM_5, VK_OEM_6,
    VK_OEM_7, VK_OEM_COMMA, VK_OEM_MINUS, VK_OEM_PERIOD, VK_OEM_PLUS, VK_PRIOR, VK_RETURN, VK_RIGHT,
    VK_SPACE, VK_SUBTRACT, VK_TAB, VK_UP, VK_Z,
};
use crate::text::{append_decimal, append_hex, decimal_digits, hex_digits, push_char};

verus! {

/// Hotkey ID of the main overlay hotkey.
pub const HOTKEY_ID: i32 = 1;
/// Hotkey ID of the label mode hotkey.
pub const HOTKEY_ID_LABEL: i32 = 2;

/// Display name of a virtual key.
pub open spec fn key_name(vk: u32) -> Seq<char> {
    if vk == VK_SPACE {
        "Space"@
    } else if vk == VK_RETURN {
        "Enter"@
    } else if vk == VK_BACK {
        "Backspace"@
    } else if vk == VK_TAB {
        "Tab"@
    } else if vk == VK_ESCAPE {
        "Esc"@
    } else if vk == VK_PRIOR {
        "Page Up"@
    } else if vk == VK_NEXT {
        "Page Down"@
    } else if vk == VK_END {
        "End"@
    } else if vk == VK_HOME {
        "Home"@
    } else if vk == VK_LEFT {
        "Left"@
    } else if vk == VK_UP {
        "Up"@
    } else if vk == VK_RIGHT {
        "Right"@
    } else if vk == VK_DOWN {
        "Down"@
    } else if vk == VK_INSERT {
        "Insert"@
    } else if vk == VK_DELETE {
        "Delete"@
    } else if vk == VK_OEM_1 {
        ";"@
    } else if vk == VK_OEM_PLUS {
        "="@
    } else if vk == VK_OEM_COMMA {
        ","@
    } else if vk == VK_OEM_MINUS {
        "-"@
    } else if vk == VK_OEM_PERIOD {
        "."@
    } else if vk == VK_OEM_2 {
        "/"@
    } else if vk == VK_OEM_3 {
        "`"@
    } else if vk == VK_OEM_4 {
        "["@
    } else if vk == VK_OEM_5 {
        "\\"@
    } else if vk == VK_OEM_6 {
        "]"@
    } else if vk == VK_OEM_7 {
        "'"@
    } else if vk == VK_MULTIPLY {
        "Num*"@
    } else if vk == VK_ADD {
        "Num+"@
    } else if vk == VK_SUBTRACT {
        "Num-"@
    } else if vk == VK_DECIMAL {
        "Num."@
    } else if vk == VK_DIVIDE {
        "Num/"@
    } else if VK_NUMPAD0 <= vk <= VK_NUMPAD9 {
        "Num"@ + decimal_digits((vk - VK_NUMPAD0) as nat)
    } else if VK_F1 <= vk <= VK_F12 {
        "F"@ + decimal_digits((vk - VK_F1 + 1) as nat)
    } else if VK_A <= vk <= VK_Z {
        seq![(65 + vk - VK_A) as char]
    } else if VK_0 <= vk <= VK_9 {
        seq![(48 + vk - VK_0) as char]
    } else if vk < 16 {
        "0x0"@ + hex_digits(vk as nat)
    } else {
        "0x"@ + hex_digits(vk as nat)
    }
}

/// The "Ctrl+", "Alt+", "Shift+", "Win+" prefixes of the set modifier flags, in that order.
pub open spec fn modifier_prefix(modifiers: u32) -> Seq<char> {
    (if modifiers & MOD_CONTROL != 0 { "Ctrl+"@ } else { Seq::empty() })
        + (if modifiers & MOD_ALT != 0 { "Alt+"@ } else { Seq::empty() })
        + (if modifiers & MOD_SHIFT != 0 { "Shift+"@ } else { Seq::empty() })
        + (if modifiers & MOD_WIN != 0 { "Win+"@ } else { Seq::empty() })
}

/// Human-readable hotkey combination such as "Ctrl+Alt+Space".
pub open spec fn hotkey_text(modifiers: u32, vk: u32) -> Seq<char> {
    modifier_prefix(modifiers) + key_name(vk)
}

/// The display names of the named keys, by key code.
pub proof fn lemma_named_key_names()
    ensures
        key_name(0x20) == "Space"@,
        key_name(0x0D) == "Enter"@,
        key_name(0x08) == "Backspace"@,
        key_name(0x09) == "Tab"@,
        key_name(0x1B) == "Esc"@,
        key_name(0x21) == "Page Up"@,
        key_name(0x22) == "Page Down"@,
        key_name(0x23) == "End"@,
        key_name(0x24) == "Home"@,
        key_name(0x25) == "Left"@,
        key_name(0x26) == "Up"@,
        key_name(0x27) == "Right"@,
        key_name(0x28) == "Down"@,
        key_name(0x2D) == "Insert"@,
        key_name(0x2E) == "Delete"@,
        key_name(0xBA) == ";"@,
        key_name(0xBB) == "="@,
        key_name(0xBC) == ","@,
        key_name(0xBD) == "-"@,
        key_name(0xBE) == "."@,
        key_name(0xBF) == "/"@,
        key_name(0xC0) == "`"@,
        key_name(0xDB) == "["@,
        key_name(0xDC) == "\\"@,
        key_name(0xDD) == "]"@,
        key_name(0xDE) == "'"@,
        key_name(0x6A) == "Num*"@,
        key_name(0x6B) == "Num+"@,
        key_name(0x6D) == "Num-"@,
        key_name(0x6E) == "Num."@,
        key_name(0x6F) == "Num/"@,
{
}

/// Letter and digit keys are named by their own character: key code `0x41 + i` is the
/// `i`-th capital letter and `0x30 + d` the digit `d`.
pub proof fn lemma_letter_and_digit_key_names(i: u32, d: u32)
    requires
        i < 26,
        d < 10,
    ensures
        key_name((0x41 + i) as u32) == seq![(65 + i) as char],
        key_name((0x30 + d) as u32) == seq![(48 + d) as char],
{
}

/// Function keys, numpad digits and unnamed keys: F1 to F12 are "F1".."F12", the numpad
/// digits "Num0".."Num9", and any other code is written in uppercase hex with two
/// digits at least.
pub proof fn lemma_numbered_key_names()
    ensures
        key_name(0x70) == "F1"@,
        key_name(0x78) == "F9"@,
        key_name(0x79) == "F10"@,
        key_name(0x7B) == "F12"@,
        key_name(0x60) == "Num0"@,
        key_name(0x65) == "Num5"@,
        key_name(0x69) == "Num9"@,
        key_name(0x07) == "0x07"@,
        key_name(0x7C) == "0x7C"@,
        key_name(0xFF) == "0xFF"@,
        key_name(0x10A) == "0x10A"@,
{
    reveal_strlit("F");
    reveal_strlit("F1");
    reveal_strlit("F9");
    reveal_strlit("F10");
    reveal_strlit("F12");
    reveal_strlit("Num");
    reveal_strlit("Num0");
    reveal_strlit("Num5");
    reveal_strlit("Num9");
    reveal_strlit("0x0");
    reveal_strlit("0x");
    reveal_strlit("0x07");
    reveal_strlit("0x7C");
    reveal_strlit("0xFF");
    reveal_strlit("0x10A");
    assert(decimal_digits(10) =~= seq!['1', '0']) by {
        assert(decimal_digits(1) == seq!['1']);
    }
    assert(decimal_digits(12) =~= seq!['1', '2']) by {
        assert(decimal_digits(1) == seq!['1']);
    }
    assert(hex_digits(0x7C) =~= seq!['7', 'C']) by {
        assert(hex_digits(7) == seq!['7']);
    }
    assert(hex_digits(0xFF) =~= seq!['F', 'F']) by {
        assert(hex_digits(15) == seq!['F']);
    }
    assert(hex_digits(0x10A) =~= seq!['1', '0', 'A']) by {
        assert(hex_digits(1) == seq!['1']);
        assert(hex_digits(16) =~= seq!['1', '0']);
    }
    assert("F"@ + seq!['1', '0'] =~= "F10"@);
    assert("F"@ + seq!['1', '2'] =~= "F12"@);
    assert("F"@ + seq!['1'] =~= "F1"@);
    assert("F"@ + seq!['9'] =~= "F9"@);
    assert("Num"@ + seq!['0'] =~= "Num0"@);
    assert("Num"@ + seq!['5'] =~= "Num5"@);
    assert("Num"@ + seq!['9'] =~= "Num9"@);
    assert("0x0"@ + seq!['7'] =~= "0x07"@);
    assert("0x"@ + seq!['7', 'C'] =~= "0x7C"@);
    assert("0x"@ + seq!['F', 'F'] =~= "0xFF"@);
    assert("0x"@ + seq!['1', '0', 'A'] =~= "0x10A"@);
}

/// Modifier words come in the fixed order Ctrl, Alt, Shift, Win, each exactly when its
/// flag is set (the no-repeat flag adds nothing), followed by the key's name.
pub proof fn lemma_hotkey_text_order()
    ensures
        hotkey_text(0x4003, 0x51) == "Ctrl+Alt+Q"@,
        hotkey_text(0x4006, 0x51) == "Ctrl+Shift+Q"@,
        hotkey_text(0x400A, 0x51) == "Ctrl+Win+Q"@,
        hotkey_text(0x400F, 0x21) == "Ctrl+Alt+Shift+Win+Page Up"@,
        hotkey_text(0x4008, 0x59) == "Win+Y"@,
        hotkey_text(0x0004, 0x22) == "Shift+Page Down"@,
        hotkey_text(0x4000, 0x20) == "Space"@,
        hotkey_text(0x0001, 0x0D) == "Alt+Enter"@,
{
    reveal_strlit("Ctrl+");
    reveal_strlit("Alt+");
    reveal_strlit("Shift+");
    reveal_strlit("Win+");
    reveal_strlit("Page Up");
    reveal_strlit("Page Down");
    reveal_strlit("Space");
    reveal_strlit("Enter");
    reveal_strlit("Ctrl+Alt+Q");
    reveal_strlit("Ctrl+Shift+Q");
    reveal_strlit("Ctrl+Win+Q");
    reveal_strlit("Ctrl+Alt+Shift+Win+Page Up");
    reveal_strlit("Win+Y");
    reveal_strlit("Shift+Page Down");
    reveal_strlit("Alt+Enter");
    assert(0x4003u32 & 2u32 != 0 && 0x4003u32 & 1u32 != 0 && 0x4003u32 & 4u32 == 0 && 0x4003u32 & 8u32 == 0)
        by (bit_vector);
    assert(0x4006u32 & 2u32 != 0 && 0x4006u32 & 1u32 == 0 && 0x4006u32 & 4u32 != 0 && 0x4006u32 & 8u32 == 0)
        by (bit_vector);
    assert(0x400Au32 & 2u32 != 0 && 0x400Au32 & 1u32 == 0 && 0x400Au32 & 4u32 == 0 && 0x400Au32 & 8u32 != 0)
        by (bit_vector);
    assert(0x400Fu32 & 2u32 != 0 && 0x400Fu32 & 1u32 != 0 && 0x400Fu32 & 4u32 != 0 && 0x400Fu32 & 8u32 != 0)
        by (bit_vector);
    assert(0x4008u32 & 2u32 == 0 && 0x4008u32 & 1u32 == 0 && 0x4008u32 & 4u32 == 0 && 0x4008u32 & 8u32 != 0)
        by (bit_vector);
    assert(4u32 & 2u32 == 0 && 4u32 & 1u32 == 0 && 4u32 & 4u32 != 0 && 4u32 & 8u32 == 0) by (bit_vector);
    assert(0x4000u32 & 2u32 == 0 && 0x4000u32 & 1u32 == 0 && 0x4000u32 & 4u32 == 0 && 0x4000u32 & 8u32 == 0)
        by (bit_vector);
    assert(1u32 & 2u32 == 0 && 1u32 & 1u32 != 0 && 1u32 & 4u32 == 0 && 1u32 & 8u32 == 0) by (bit_vector);
    assert(hotkey_text(0x4003, 0x51) =~= "Ctrl+Alt+Q"@);
    assert(hotkey_text(0x4006, 0x51) =~= "Ctrl+Shift+Q"@);
    assert(hotkey_text(0x400A, 0x51) =~= "Ctrl+Win+Q"@);
    assert(hotkey_text(0x400F, 0x21) =~= "Ctrl+Alt+Shift+Win+Page Up"@);
    assert(hotkey_text(0x4008, 0x59) =~= "Win+Y"@);
    assert(hotkey_text(0x0004, 0x22) =~= "Shift+Page Down"@);
    assert(hotkey_text(0x4000, 0x20) =~= "Space"@);
    assert(hotkey_text(0x0001, 0x0D) =~= "Alt+Enter"@);
}

/// Format a hotkey combination as a human-readable string (e.g., "Ctrl+Alt+Space").
pub fn format_hotkey(modifiers: u32, vk_code: u32) -> (r: String)
    ensures
        r@ == hotkey_text(modifiers, vk_code),
{
    let mut s = String::new();
    if modifiers & MOD_CONTROL != 0 {
        s.append("Ctrl+");
    }
    if modifiers & MOD_ALT != 0 {
        s.append("Alt+");
    }
    if modifiers & MOD_SHIFT != 0 {
        s.append("Shift+");
    }
    if modifiers & MOD_WIN != 0 {
        s.append("Win+");
    }
    let ghost prefix = s@;
    assert(prefix =~= modifier_prefix(modifiers));
    let name = vk_to_name(vk_code);
    s.append(name.as_str());
    s
}

/// Display name of a virtual key code.
pub fn vk_to_name(vk: u32) -> (r: String)
    ensures
        r@ == key_name(vk),
{
    if vk == VK_SPACE {
        String::from_str("Space")
    } else if vk == VK_RETURN {
        String::from_str("Enter")
    } else if vk == VK_BACK {
        String::from_str("Backspace")
    } else if vk == VK_TAB {
        String::from_str("Tab")
    } else if vk == VK_ESCAPE {
        String::from_str("Esc")
    } else if vk == VK_PRIOR {
        String::from_str("Page Up")
    } else if vk == VK_NEXT {
        String::from_str("Page Down")
    } else if vk == VK_END {
        String::from_str("End")
    } else if vk == VK_HOME {
        String::from_str("Home")
    } else if vk == VK_LEFT {
        String::from_str("Left")
    } else if vk == VK_UP {
        String::from_str("Up")
    } else if vk == VK_RIGHT {
        String::from_str("Right")
    } else if vk == VK_DOWN {
        String::from_str("Down")
    } else if vk == VK_INSERT {
        String::from_str("Insert")
    } else if vk == VK_DELETE {
        String::from_str("Delete")
    } else if vk == VK_OEM_1 {
        String::from_str(";")
    } else if vk == VK_OEM_PLUS {
        String::from_str("=")
    } else if vk == VK_OEM_COMMA {
        String::from_str(",")
    } else if vk == VK_OEM_MINUS {
        String::from_str("-")
    } else if vk == VK_OEM_PERIOD {
        String::from_str(".")
    } else if vk == VK_OEM_2 {
        String::from_str("/")
    } else if vk == VK_OEM_3 {
        String::from_str("`")
    } else if vk == VK_OEM_4 {
        String::from_str("[")
    } else if vk == VK_OEM_5 {
        String::from_str("\\")
    } else if vk == VK_OEM_6 {
        String::from_str("]")
    } else if vk == VK_OEM_7 {
        String::from_str("'")
    } else if vk == VK_MULTIPLY {
        String::from_str("Num*")
    } else if vk == VK_ADD {
        String::from_str("Num+")
    } else if vk == VK_SUBTRACT {
        String::from_str("Num-")
    } else if vk == VK_DECIMAL {
        String::from_str("Num.")
    } else if vk == VK_DIVIDE {
        String::from_str("Num/")
    } else if VK_NUMPAD0 <= vk && vk <= VK_NUMPAD9 {
        let mut s = String::from_str("Num");
        append_decimal(&mut s, vk - VK_NUMPAD0);
        s
    } else if VK_F1 <= vk && vk <= VK_F12 {
        let mut s = String::from_str("F");
        append_decimal(&mut s, vk - VK_F1 + 1);
        s
    } else if VK_A <= vk && vk <= VK_Z {
        let mut s = String::new();
        let b: u8 = 65 + (vk - VK_A) as u8;
        push_char(&mut s, b as char);
        assert(s@ =~= seq![(65 + vk - VK_A) as char]);
        s
    } else if VK_0 <= vk && vk <= VK_9 {
        let mut s = String::new();
        let b: u8 = 48 + (vk - VK_0) as u8;
        push_char(&mut s, b as char);
        assert(s@ =~= seq![(48 + vk - VK_0) as char]);
        s
    } else if vk < 16 {
        let mut s = String::from_str("0x0");
        append_hex(&mut s, vk);
        s
    } else {
        let mut s = String::from_str("0x");
        append_hex(&mut s, vk);
        s
    }
}

} // verus!
