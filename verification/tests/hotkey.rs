use window_selector::hotkey::{format_hotkey, vk_to_name};
use window_selector::keycodes::{
    MOD_CONTROL, MOD_SHIFT, MOD_WIN, VK_ADD, VK_DECIMAL, VK_DELETE, VK_DIVIDE, VK_F12, VK_F4, VK_HOME, VK_MULTIPLY,
    VK_NUMPAD5, VK_OEM_1, VK_OEM_2, VK_OEM_3, VK_OEM_4, VK_OEM_5, VK_OEM_6, VK_OEM_7, VK_OEM_COMMA, VK_OEM_MINUS,
    VK_OEM_PERIOD, VK_OEM_PLUS, VK_SUBTRACT, VK_TAB,
};

#[test]
fn test_format_hotkey_ctrl_alt_space() {
    let s = format_hotkey(0x0002 | 0x0001 | 0x4000, 0x20);
    assert!(s.contains("Ctrl"), "Should contain Ctrl: {}", s);
    assert!(s.contains("Alt"), "Should contain Alt: {}", s);
    assert!(s.contains("Space"), "Should contain Space: {}", s);
}

#[test]
fn test_format_hotkey_shift_f1() {
    let s = format_hotkey(0x0004, 0x70);
    assert!(s.contains("Shift"), "Should contain Shift: {}", s);
    assert!(s.contains("F1"), "Should contain F1: {}", s);
}

#[test]
fn test_format_hotkey_letter() {
    let s = format_hotkey(0x0002, 0x41);
    assert_eq!(s, "Ctrl+A");
}

#[test]
fn test_format_hotkey_bare_nav_keys_have_names() {
    assert_eq!(format_hotkey(0, VK_TAB), "Tab");
    assert_eq!(format_hotkey(0, VK_F4), "F4");
    assert_eq!(format_hotkey(0, VK_HOME), "Home");
    assert_eq!(format_hotkey(0, VK_DELETE), "Delete");
}

#[test]
fn test_format_hotkey_oem_punctuation_has_names() {
    assert_eq!(format_hotkey(0, VK_OEM_1), ";");
    assert_eq!(format_hotkey(0, VK_OEM_PLUS), "=");
    assert_eq!(format_hotkey(0, VK_OEM_COMMA), ",");
    assert_eq!(format_hotkey(0, VK_OEM_MINUS), "-");
    assert_eq!(format_hotkey(0, VK_OEM_PERIOD), ".");
    assert_eq!(format_hotkey(0, VK_OEM_2), "/");
    assert_eq!(format_hotkey(0, VK_OEM_3), "`");
    assert_eq!(format_hotkey(0, VK_OEM_4), "[");
    assert_eq!(format_hotkey(0, VK_OEM_5), "\\");
    assert_eq!(format_hotkey(0, VK_OEM_6), "]");
    assert_eq!(format_hotkey(0, VK_OEM_7), "'");
}

#[test]
fn test_format_hotkey_numpad_has_names() {
    assert_eq!(format_hotkey(0, VK_NUMPAD5), "Num5");
    assert_eq!(format_hotkey(0, VK_MULTIPLY), "Num*");
    assert_eq!(format_hotkey(0, VK_ADD), "Num+");
    assert_eq!(format_hotkey(0, VK_SUBTRACT), "Num-");
    assert_eq!(format_hotkey(0, VK_DECIMAL), "Num.");
    assert_eq!(format_hotkey(0, VK_DIVIDE), "Num/");
}

// --- additional cases ---

#[test]
fn modifier_order_is_ctrl_alt_shift_win() {
    assert_eq!(format_hotkey(MOD_WIN | MOD_SHIFT | MOD_CONTROL | 0x0001, 0x51), "Ctrl+Alt+Shift+Win+Q");
}

#[test]
fn digits_f_keys_and_letters() {
    assert_eq!(vk_to_name(0x30), "0");
    assert_eq!(vk_to_name(0x39), "9");
    assert_eq!(vk_to_name(VK_F12), "F12");
    assert_eq!(vk_to_name(0x5A), "Z");
    assert_eq!(vk_to_name(0x60), "Num0");
}

#[test]
fn unknown_keys_render_as_two_digit_hex() {
    assert_eq!(vk_to_name(0x07), "0x07");
    assert_eq!(vk_to_name(0xFF), "0xFF");
    assert_eq!(vk_to_name(0x0), "0x00");
    assert_eq!(vk_to_name(0x1A2), "0x1A2");
    assert_eq!(format_hotkey(MOD_WIN, 0xE7), "Win+0xE7");
}
