//! Windows virtual-key codes and hotkey modifier flags, with range checks.
//!
//! All values are `u32` to match the `RegisterHotKey` / `GetAsyncKeyState`
//! APIs and the persisted configuration format.
use vstd::prelude::*;

verus! {

// Hotkey modifier flags (used with RegisterHotKey).
/// Either Alt key.
pub const MOD_ALT: u32 = 0x0001;
/// Either Ctrl key.
pub const MOD_CONTROL: u32 = 0x0002;
/// Either Shift key.
pub const MOD_SHIFT: u32 = 0x0004;
/// Either Windows logo key.
pub const MOD_WIN: u32 = 0x0008;
/// Suppress repeated hotkey messages while the key is held.
pub const MOD_NOREPEAT: u32 = 0x4000;

// Control / editing keys.
/// Backspace.
pub const VK_BACK: u32 = 0x08;
/// Tab.
pub const VK_TAB: u32 = 0x09;
/// Enter.
pub const VK_RETURN: u32 = 0x0D;
/// Escape.
pub const VK_ESCAPE: u32 = 0x1B;
/// Space bar.
pub const VK_SPACE: u32 = 0x20;
/// Page Up.
pub const VK_PRIOR: u32 = 0x21;
/// Page Down.
pub const VK_NEXT: u32 = 0x22;
/// End.
pub const VK_END: u32 = 0x23;
/// Home.
pub const VK_HOME: u32 = 0x24;
/// Left arrow.
pub const VK_LEFT: u32 = 0x25;
/// Up arrow.
pub const VK_UP: u32 = 0x26;
/// Right arrow.
pub const VK_RIGHT: u32 = 0x27;
/// Down arrow.
pub const VK_DOWN: u32 = 0x28;
/// Insert.
pub const VK_INSERT: u32 = 0x2D;
/// Delete.
pub const VK_DELETE: u32 = 0x2E;

// Modifier virtual keys (used with GetAsyncKeyState).
/// Generic Shift (either side).
pub const VK_SHIFT: u32 = 0x10;
/// Generic Ctrl (either side).
pub const VK_CONTROL: u32 = 0x11;
/// Generic Alt (either side); "Menu" is the Win32 name for Alt.
pub const VK_MENU: u32 = 0x12;
/// Left Shift.
pub const VK_LSHIFT: u32 = 0xA0;
/// Right Shift.
pub const VK_RSHIFT: u32 = 0xA1;
/// Left Ctrl.
pub const VK_LCONTROL: u32 = 0xA2;
/// Right Ctrl.
pub const VK_RCONTROL: u32 = 0xA3;
/// Left Alt.
pub const VK_LMENU: u32 = 0xA4;
/// Right Alt.
pub const VK_RMENU: u32 = 0xA5;
/// Left Windows logo key.
pub const VK_LWIN: u32 = 0x5B;
/// Right Windows logo key.
pub const VK_RWIN: u32 = 0x5C;

// Digit row ('0'..'9').
pub const VK_0: u32 = 0x30;
pub const VK_1: u32 = 0x31;
pub const VK_2: u32 = 0x32;
pub const VK_3: u32 = 0x33;
pub const VK_4: u32 = 0x34;
pub const VK_5: u32 = 0x35;
pub const VK_6: u32 = 0x36;
pub const VK_7: u32 = 0x37;
pub const VK_8: u32 = 0x38;
pub const VK_9: u32 = 0x39;

// Letter keys ('A'..'Z').
pub const VK_A: u32 = 0x41;
pub const VK_B: u32 = 0x42;
pub const VK_C: u32 = 0x43;
pub const VK_D: u32 = 0x44;
pub const VK_E: u32 = 0x45;
pub const VK_F: u32 = 0x46;
pub const VK_G: u32 = 0x47;
pub const VK_H: u32 = 0x48;
pub const VK_I: u32 = 0x49;
pub const VK_J: u32 = 0x4A;
pub const VK_K: u32 = 0x4B;
pub const VK_L: u32 = 0x4C;
pub const VK_M: u32 = 0x4D;
pub const VK_N: u32 = 0x4E;
pub const VK_O: u32 = 0x4F;
pub const VK_P: u32 = 0x50;
pub const VK_Q: u32 = 0x51;
pub const VK_R: u32 = 0x52;
pub const VK_S: u32 = 0x53;
pub const VK_T: u32 = 0x54;
pub const VK_U: u32 = 0x55;
pub const VK_V: u32 = 0x56;
pub const VK_W: u32 = 0x57;
pub const VK_X: u32 = 0x58;
pub const VK_Y: u32 = 0x59;
pub const VK_Z: u32 = 0x5A;

// Numeric keypad.
pub const VK_NUMPAD0: u32 = 0x60;
pub const VK_NUMPAD1: u32 = 0x61;
pub const VK_NUMPAD2: u32 = 0x62;
pub const VK_NUMPAD3: u32 = 0x63;
pub const VK_NUMPAD4: u32 = 0x64;
pub const VK_NUMPAD5: u32 = 0x65;
pub const VK_NUMPAD6: u32 = 0x66;
pub const VK_NUMPAD7: u32 = 0x67;
pub const VK_NUMPAD8: u32 = 0x68;
pub const VK_NUMPAD9: u32 = 0x69;
/// Keypad '*'.
pub const VK_MULTIPLY: u32 = 0x6A;
/// Keypad '+'.
pub const VK_ADD: u32 = 0x6B;
/// Keypad '-'.
pub const VK_SUBTRACT: u32 = 0x6D;
/// Keypad '.'.
pub const VK_DECIMAL: u32 = 0x6E;
/// Keypad '/'.
pub const VK_DIVIDE: u32 = 0x6F;

// Function keys (F1..F12).
pub const VK_F1: u32 = 0x70;
pub const VK_F2: u32 = 0x71;
pub const VK_F3: u32 = 0x72;
pub const VK_F4: u32 = 0x73;
pub const VK_F5: u32 = 0x74;
pub const VK_F6: u32 = 0x75;
pub const VK_F7: u32 = 0x76;
pub const VK_F8: u32 = 0x77;
pub const VK_F9: u32 = 0x78;
pub const VK_F10: u32 = 0x79;
pub const VK_F11: u32 = 0x7A;
pub const VK_F12: u32 = 0x7B;

// OEM punctuation (US layout).
/// ';' key.
pub const VK_OEM_1: u32 = 0xBA;
/// '=' key.
pub const VK_OEM_PLUS: u32 = 0xBB;
/// ',' key.
pub const VK_OEM_COMMA: u32 = 0xBC;
/// '-' key.
pub const VK_OEM_MINUS: u32 = 0xBD;
/// '.' key.
pub const VK_OEM_PERIOD: u32 = 0xBE;
/// '/' key.
pub const VK_OEM_2: u32 = 0xBF;
/// '`' key.
pub const VK_OEM_3: u32 = 0xC0;
/// '[' key.
pub const VK_OEM_4: u32 = 0xDB;
/// '\' key.
pub const VK_OEM_5: u32 = 0xDC;
/// ']' key.
pub const VK_OEM_6: u32 = 0xDD;
/// Quote key.
pub const VK_OEM_7: u32 = 0xDE;

// Raw window-message ids seen by low-level hook callbacks.
/// Key pressed (non-system).
pub const WM_KEYDOWN_RAW: u32 = 0x0100;
/// Key pressed while Alt is held.
pub const WM_SYSKEYDOWN_RAW: u32 = 0x0104;

/// The modifier keys: Shift, Ctrl, Alt, Win, generic or side-specific.
pub open spec fn is_modifier_key(vk: u32) -> bool {
    ||| vk == VK_SHIFT
    ||| vk == VK_CONTROL
    ||| vk == VK_MENU
    ||| vk == VK_LSHIFT
    ||| vk == VK_RSHIFT
    ||| vk == VK_LCONTROL
    ||| vk == VK_RCONTROL
    ||| vk == VK_LMENU
    ||| vk == VK_RMENU
    ||| vk == VK_LWIN
    ||| vk == VK_RWIN
}

/// True if `vk` is a letter key (A–Z).
pub fn is_letter(vk: u32) -> (r: bool)
    ensures
        r == (VK_A <= vk && vk <= VK_Z),
{
    VK_A <= vk && vk <= VK_Z
}

/// True if `vk` is a top-row digit key (0–9).
pub fn is_digit(vk: u32) -> (r: bool)
    ensures
        r == (VK_0 <= vk && vk <= VK_9),
{
    VK_0 <= vk && vk <= VK_9
}

/// True if `vk` is a function key (F1–F12).
pub fn is_function_key(vk: u32) -> (r: bool)
    ensures
        r == (VK_F1 <= vk && vk <= VK_F12),
{
    VK_F1 <= vk && vk <= VK_F12
}

/// True if `vk` is a pure modifier key (Shift, Ctrl, Alt, Win — any side).
/// The hotkey recorder uses it to reject modifier-only combinations.
pub fn is_modifier_only(vk: u32) -> (r: bool)
    ensures
        r == is_modifier_key(vk),
{
    vk == VK_SHIFT || vk == VK_CONTROL || vk == VK_MENU || vk == VK_LSHIFT || vk == VK_RSHIFT
        || vk == VK_LCONTROL || vk == VK_RCONTROL || vk == VK_LMENU || vk == VK_RMENU
        || vk == VK_LWIN || vk == VK_RWIN
}

} // verus!
