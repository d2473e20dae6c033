//! Configuration defaults, value ranges and the small enums stored in the config.
use vstd::prelude::*;
use crate::keycodes::{MOD_ALT, MOD_CONTROL, MOD_NOREPEAT, MOD_WIN, VK_Q, VK_Y};

verus! {

/// Default activation hotkey modifiers: Ctrl+Alt, without auto-repeat.
pub fn default_hotkey_modifiers() -> (r: u32)
    ensures
        r == MOD_CONTROL | MOD_ALT | MOD_NOREPEAT,
{
    MOD_CONTROL | MOD_ALT | MOD_NOREPEAT
}

/// Default activation hotkey key: Q.
pub fn default_hotkey_vk() -> (r: u32)
    ensures
        r == VK_Q,
{
    VK_Q
}

/// Default label mode hotkey modifiers: Win, without auto-repeat.
pub fn default_label_hotkey_modifiers() -> (r: u32)
    ensures
        r == MOD_WIN | MOD_NOREPEAT,
{
    MOD_WIN | MOD_NOREPEAT
}

/// Default label mode hotkey key: Y.
pub fn default_label_hotkey_vk() -> (r: u32)
    ensures
        r == VK_Y,
{
    VK_Y
}

/// Default maximum overlay alpha.
pub fn default_overlay_opacity() -> (r: u8)
    ensures
        r == 220,
{
    220
}

/// Default fade duration in milliseconds.
pub fn default_fade_duration_ms() -> (r: u32)
    ensures
        r == 150,
{
    150
}

/// Smallest accepted overlay opacity (the largest is 255, the top of `u8`).
pub const MIN_OVERLAY_OPACITY: u8 = 50;
/// Largest accepted fade duration in milliseconds.
pub const MAX_FADE_DURATION_MS: u32 = 500;

/// Overlay opacity clamped to its valid range (at least 50).
pub fn clamp_overlay_opacity(v: u8) -> (r: u8)
    ensures
        r == (if v < MIN_OVERLAY_OPACITY { MIN_OVERLAY_OPACITY } else { v }),
{
    if v < MIN_OVERLAY_OPACITY { MIN_OVERLAY_OPACITY } else { v }
}

/// Fade duration clamped to its valid range (at most 500 ms).
pub fn clamp_fade_duration_ms(v: u32) -> (r: u32)
    ensures
        r == (if v > MAX_FADE_DURATION_MS { MAX_FADE_DURATION_MS } else { v }),
{
    if v > MAX_FADE_DURATION_MS { MAX_FADE_DURATION_MS } else { v }
}

/// Clamping is idempotent and leaves in-range values (the defaults among them) unchanged.
pub proof fn lemma_clamps_keep_valid_values(opacity: u8, fade: u32)
    ensures
        opacity >= MIN_OVERLAY_OPACITY ==> (if opacity < MIN_OVERLAY_OPACITY { MIN_OVERLAY_OPACITY } else { opacity }) == opacity,
        fade <= MAX_FADE_DURATION_MS ==> (if fade > MAX_FADE_DURATION_MS { MAX_FADE_DURATION_MS } else { fade }) == fade,
        (220u8) >= MIN_OVERLAY_OPACITY,
        (150u32) <= MAX_FADE_DURATION_MS,
{
}

/// A modifier key that qualifies an in-overlay action (tag assignment, move to monitor).
#[derive(Debug, Clone, Copy, PartialEq, Eq, Structural)]
pub enum ActionModifier {
    Ctrl,
    Alt,
    Shift,
    Win,
}

impl ActionModifier {
    /// All modifiers in settings display order.
    pub const ALL: [ActionModifier; 4] = [
        ActionModifier::Ctrl,
        ActionModifier::Alt,
        ActionModifier::Shift,
        ActionModifier::Win,
    ];

    /// Display label of the modifier.
    pub fn display_name(self) -> (r: &'static str)
        ensures
            r@ == (match self {
                ActionModifier::Ctrl => "Ctrl"@,
                ActionModifier::Alt => "Alt"@,
                ActionModifier::Shift => "Shift"@,
                ActionModifier::Win => "Win"@,
            }),
    {
        match self {
            ActionModifier::Ctrl => "Ctrl",
            ActionModifier::Alt => "Alt",
            ActionModifier::Shift => "Shift",
            ActionModifier::Win => "Win",
        }
    }
}

/// How label mode handles labels of windows that would overlap.
#[derive(Debug, Clone, Copy, PartialEq, Eq, Structural)]
pub enum LabelOverlapStrategy {
    /// Shift overlapping labels apart.
    AutoNudge,
    /// Place each label in the visible part of its window.
    VisibleRegion,
}

} // verus!
