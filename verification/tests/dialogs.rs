use window_selector::dialogs::{about_text, SettingsDialog};
use window_selector::keycodes::{MOD_ALT, MOD_CONTROL, MOD_NOREPEAT, VK_Q};

#[test]
fn settings_message_names_the_current_shortcut() {
    assert_eq!(
        SettingsDialog::message_text(MOD_CONTROL | MOD_ALT | MOD_NOREPEAT, VK_Q),
        "Current activation shortcut: Ctrl+Alt+Q\n\nSettings dialog is available.\nUse the hotkey to activate the overlay."
    );
}

#[test]
fn about_text_carries_the_version() {
    let text = about_text("1.2.3");
    assert!(text.starts_with("Window Selector v1.2.3\n\n"));
    assert!(text.ends_with("then Enter to switch."));
}
