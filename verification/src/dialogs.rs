//! Text of the two message-box dialogs reachable from the tray menu.
use vstd::prelude::*;
use crate::hotkey::{format_hotkey, hotkey_text};

verus! {

/// The settings message box (the full settings window is the settings panel).
pub struct SettingsDialog;

/// Body of the settings message box for the current activation shortcut.
pub open spec fn settings_message(modifiers: u32, vk: u32) -> Seq<char> {
    "Current activation shortcut: "@ + hotkey_text(modifiers, vk)
        + "\n\nSettings dialog is available.\nUse the hotkey to activate the overlay."@
}

impl SettingsDialog {
    /// Body of the message box that shows the current activation shortcut.
    pub fn message_text(hotkey_modifiers: u32, hotkey_vk: u32) -> (r: String)
        ensures
            r@ == settings_message(hotkey_modifiers, hotkey_vk),
    {
        let mut s = String::from_str("Current activation shortcut: ");
        let current = format_hotkey(hotkey_modifiers, hotkey_vk);
        s.append(current.as_str());
        s.append("\n\nSettings dialog is available.\nUse the hotkey to activate the overlay.");
        s
    }
}

/// Body of the About box for a program version.
pub open spec fn about_message(version: Seq<char>) -> Seq<char> {
    "Window Selector v"@ + version
        + "\n\nKeyboard-driven window switching for Windows 11.\n\nPress Ctrl+Alt+Space to activate the overlay.\nPress a letter to select a window, then Enter to switch."@
}

/// Body of the About box.
pub fn about_text(version: &str) -> (r: String)
    ensures
        r@ == about_message(version@),
{
    let mut s = String::from_str("Window Selector v");
    s.append(version);
    s.append(
        "\n\nKeyboard-driven window switching for Windows 11.\n\nPress Ctrl+Alt+Space to activate the overlay.\nPress a letter to select a window, then Enter to switch.",
    );
    s
}

} // verus!
