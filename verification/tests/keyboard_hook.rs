use window_selector::keyboard_hook::{offers_key_to_overlay, swallows_key, KeyboardHookState, HC_ACTION};
use window_selector::keycodes::{
    VK_A, VK_CONTROL, VK_ESCAPE, VK_LSHIFT, VK_LWIN, VK_MENU, VK_RMENU, VK_SHIFT, WM_KEYDOWN_RAW, WM_SYSKEYDOWN_RAW,
};

#[test]
fn hook_state_starts_inactive_and_follows_set_active() {
    let mut state = KeyboardHookState::new();
    assert!(!state.is_active());
    state.set_active(true);
    assert!(state.is_active());
    state.set_active(false);
    assert!(!state.is_active());
}

#[test]
fn only_key_downs_reach_an_active_overlay() {
    assert!(offers_key_to_overlay(HC_ACTION, WM_KEYDOWN_RAW, true));
    assert!(offers_key_to_overlay(HC_ACTION, WM_SYSKEYDOWN_RAW, true));
    assert!(!offers_key_to_overlay(HC_ACTION, WM_KEYDOWN_RAW, false));
    assert!(!offers_key_to_overlay(-1, WM_KEYDOWN_RAW, true));
    assert!(!offers_key_to_overlay(HC_ACTION, 0x0101, true));
}

#[test]
fn shift_ctrl_alt_pass_through_other_keys_are_swallowed() {
    for vk in [VK_SHIFT, VK_CONTROL, VK_MENU, VK_LSHIFT, VK_RMENU] {
        assert!(!swallows_key(vk), "{:#x} must pass through", vk);
    }
    for vk in [VK_A, VK_ESCAPE, VK_LWIN] {
        assert!(swallows_key(vk), "{:#x} must be swallowed", vk);
    }
}
