use window_selector::config::{
    clamp_fade_duration_ms, clamp_overlay_opacity, default_fade_duration_ms, default_hotkey_modifiers,
    default_hotkey_vk, default_label_hotkey_modifiers, default_label_hotkey_vk, default_overlay_opacity,
    ActionModifier,
};
use window_selector::keycodes::{MOD_ALT, MOD_CONTROL, MOD_NOREPEAT, MOD_WIN, VK_Q, VK_Y};

#[test]
fn defaults_are_ctrl_alt_q_and_win_y() {
    assert_eq!(default_hotkey_modifiers(), MOD_CONTROL | MOD_ALT | MOD_NOREPEAT);
    assert_eq!(default_hotkey_vk(), VK_Q);
    assert_eq!(default_label_hotkey_modifiers(), MOD_WIN | MOD_NOREPEAT);
    assert_eq!(default_label_hotkey_vk(), VK_Y);
    assert_eq!(default_overlay_opacity(), 220);
    assert_eq!(default_fade_duration_ms(), 150);
}

#[test]
fn opacity_is_raised_to_fifty() {
    assert_eq!(clamp_overlay_opacity(10), 50);
    assert_eq!(clamp_overlay_opacity(50), 50);
    assert_eq!(clamp_overlay_opacity(255), 255);
    assert_eq!(clamp_overlay_opacity(default_overlay_opacity()), 220);
}

#[test]
fn fade_duration_is_capped_at_five_hundred() {
    assert_eq!(clamp_fade_duration_ms(9999), 500);
    assert_eq!(clamp_fade_duration_ms(500), 500);
    assert_eq!(clamp_fade_duration_ms(0), 0);
    assert_eq!(clamp_fade_duration_ms(default_fade_duration_ms()), 150);
}

#[test]
fn action_modifiers_in_display_order() {
    let names: Vec<&str> = ActionModifier::ALL.iter().map(|m| m.display_name()).collect();
    assert_eq!(names, vec!["Ctrl", "Alt", "Shift", "Win"]);
}
