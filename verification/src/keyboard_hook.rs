//! Decisions of the low-level keyboard hook that feeds key presses to the overlay.
//!
//! Installing the hook and reading the hooked event happen in the application; this
//! module decides which events reach the overlay and which keystrokes are swallowed.
use vstd::prelude::*;
use crate::keycodes::{
    is_modifier_key, VK_LSHIFT, VK_LWIN, VK_MENU, VK_RMENU, VK_RWIN, VK_SHIFT, WM_KEYDOWN_RAW, WM_SYSKEYDOWN_RAW,
};

verus! {

/// Hook code meaning the event carries a keystroke to process.
pub const HC_ACTION: i32 = 0;

/// Whether the overlay currently consumes key presses.
pub struct KeyboardHookState {
    active: bool,
}

impl View for KeyboardHookState {
    type V = bool;

    closed spec fn view(&self) -> bool {
        self.active
    }
}

impl KeyboardHookState {
    /// Starts inactive: the overlay is hidden at startup.
    pub fn new() -> (r: Self)
        ensures
            !r@,
    {
        KeyboardHookState { active: false }
    }

    /// Signal whether the overlay is visible and should consume keystrokes.
    pub fn set_active(&mut self, active: bool)
        ensures
            final(self)@ == active,
    {
        self.active = active;
    }

    /// Whether the hook is currently consuming keystrokes.
    pub fn is_active(&self) -> (r: bool)
        ensures
            r == self@,
    {
        self.active
    }
}

/// Whether a hooked event is a key press that the overlay should see: the hook code
/// is an action, the message is a key-down (plain or with Alt), and the overlay is active.
pub fn offers_key_to_overlay(n_code: i32, msg_id: u32, active: bool) -> (r: bool)
    ensures
        r == (n_code >= HC_ACTION && (msg_id == WM_KEYDOWN_RAW || msg_id == WM_SYSKEYDOWN_RAW) && active),
{
    n_code >= HC_ACTION && (msg_id == WM_KEYDOWN_RAW || msg_id == WM_SYSKEYDOWN_RAW) && active
}

/// Whether a key handled by the overlay is swallowed. Shift, Ctrl and Alt (generic and
/// side-specific) pass through so the physical modifier state stays readable.
pub fn swallows_key(vk_code: u32) -> (r: bool)
    ensures
        r == !((VK_LSHIFT <= vk_code && vk_code <= VK_RMENU) || (VK_SHIFT <= vk_code && vk_code <= VK_MENU)),
        // Shift, Ctrl and Alt are never swallowed
        is_modifier_key(vk_code) && vk_code != VK_LWIN && vk_code != VK_RWIN ==> !r,
{
    !((VK_LSHIFT <= vk_code && vk_code <= VK_RMENU) || (VK_SHIFT <= vk_code && vk_code <= VK_MENU))
}

} // verus!
