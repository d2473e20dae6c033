//! Settings window logic: pages, the hotkey recorder and binding display text.
use vstd::prelude::*;
use crate::config::{ActionModifier, LabelOverlapStrategy};
use crate::hotkey::{format_hotkey, hotkey_text};
use crate::interaction::{lemma_held_flags_one_bit_per_modifier, held_flags, held_mod_flags, Keybindings, ModifierState};
use crate::keycodes::{is_modifier_key, is_modifier_only, MOD_NOREPEAT, VK_ESCAPE, VK_SPACE};
use crate::window_mover::Rect;

verus! {

/// Which page of the settings window is active.
#[derive(Debug, Clone, Copy, PartialEq, Eq, Structural)]
pub enum SettingsPage {
    /// Global hotkeys and in-overlay keys.
    Keybindings,
    Behavior,
    Appearance,
    Guide,
}

impl SettingsPage {
    /// All pages in sidebar display order.
    pub const ALL: [SettingsPage; 4] = [
        SettingsPage::Keybindings,
        SettingsPage::Behavior,
        SettingsPage::Appearance,
        SettingsPage::Guide,
    ];

    /// Sidebar label of the page.
    pub fn label(self) -> (r: &'static str)
        ensures
            r@ == (match self {
                SettingsPage::Keybindings => "Keybindings"@,
                SettingsPage::Behavior => "Behavior"@,
                SettingsPage::Appearance => "Appearance"@,
                SettingsPage::Guide => "Guide"@,
            }),
    {
        match self {
            SettingsPage::Keybindings => "Keybindings",
            SettingsPage::Behavior => "Behavior",
            SettingsPage::Appearance => "Appearance",
            SettingsPage::Guide => "Guide",
        }
    }
}

impl Default for SettingsPage {
    fn default() -> (r: Self)
        ensures
            r == SettingsPage::Keybindings,
    {
        SettingsPage::Keybindings
    }
}

/// State of the hotkey recorder.
#[derive(Debug, Clone, Copy, PartialEq, Eq, Structural)]
pub enum HotkeyRecorderState {
    /// Not recording.
    Idle,
    /// Recording for the main overlay hotkey (target 1) or the label hotkey (target 2),
    /// remembering the combination to fall back to.
    Recording { target: u8, previous_modifiers: u32, previous_vk: u32 },
}

/// What the recorder does with a key press.
#[derive(Debug, Clone, Copy, PartialEq, Eq, Structural)]
pub enum RecorderKeyOutcome {
    /// Escape: stop recording, keep the old combination.
    Cancel,
    /// Not a complete combination (a modifier alone, or no modifier held): let it through.
    PassThrough,
    /// A complete combination to commit.
    Commit { modifiers: u32, vk: u32 },
}

/// Whether `modifiers` holds a real modifier besides the no-repeat flag.
pub open spec fn has_real_modifier_flag(modifiers: u32) -> bool {
    modifiers & !MOD_NOREPEAT != 0
}

/// Whether `modifiers` holds a real modifier besides the no-repeat flag.
pub fn has_real_modifier(modifiers: u32) -> (r: bool)
    ensures
        r == has_real_modifier_flag(modifiers),
{
    modifiers & !MOD_NOREPEAT != 0
}

/// Decide what the recorder does with a key press given the held modifiers: Escape
/// cancels; modifier keys and keys pressed without any modifier pass through; anything
/// else commits the combination with `MOD_NOREPEAT` set.
pub fn classify_recorder_key(vk: u32, mods: ModifierState) -> (r: RecorderKeyOutcome)
    ensures
        r == (if vk == VK_ESCAPE {
            RecorderKeyOutcome::Cancel
        } else if is_modifier_key(vk) || !(mods.ctrl || mods.alt || mods.shift || mods.win) {
            RecorderKeyOutcome::PassThrough
        } else {
            RecorderKeyOutcome::Commit { modifiers: MOD_NOREPEAT | held_flags(mods), vk }
        }),
        // a committed combination always passes validation: a real modifier, no
        // auto-repeat, and a key that is neither Escape nor a modifier
        r matches RecorderKeyOutcome::Commit { modifiers, vk: key } ==> has_real_modifier_flag(modifiers)
            && modifiers & MOD_NOREPEAT == MOD_NOREPEAT && key == vk && key != VK_ESCAPE && !is_modifier_key(key),
{
    if vk == VK_ESCAPE {
        return RecorderKeyOutcome::Cancel;
    }
    if is_modifier_only(vk) {
        return RecorderKeyOutcome::PassThrough;
    }
    let held = held_mod_flags(&mods);
    let modifiers: u32 = MOD_NOREPEAT | held;
    let any_held = has_real_modifier(modifiers);
    let (c, a, s, w) = (mods.ctrl, mods.alt, mods.shift, mods.win);
    assert(any_held == (c || a || s || w)) by (bit_vector)
        requires
            modifiers == 0x4000u32 | held,
            held == (if c { 2u32 } else { 0u32 }) | (if a { 1u32 } else { 0u32 }) | (if s { 4u32 } else { 0u32 }) | (
            if w { 8u32 } else { 0u32 }),
            any_held == (modifiers & !0x4000u32 != 0),
    ;
    if !any_held {
        return RecorderKeyOutcome::PassThrough;
    }
    assert(modifiers & 0x4000u32 == 0x4000u32) by (bit_vector)
        requires
            modifiers == 0x4000u32 | held,
    ;
    RecorderKeyOutcome::Commit { modifiers, vk }
}

/// Decide what the recorder does with a key press for the Confirm or Dismiss binding,
/// which may be a bare key: Escape cancels, modifier keys pass through, and any other
/// key commits with exactly the modifiers held (no auto-repeat flag).
pub fn classify_binding_key(vk: u32, mods: ModifierState) -> (r: RecorderKeyOutcome)
    ensures
        r == (if vk == VK_ESCAPE {
            RecorderKeyOutcome::Cancel
        } else if is_modifier_key(vk) {
            RecorderKeyOutcome::PassThrough
        } else {
            RecorderKeyOutcome::Commit { modifiers: held_flags(mods), vk }
        }),
{
    if vk == VK_ESCAPE {
        RecorderKeyOutcome::Cancel
    } else if is_modifier_only(vk) {
        RecorderKeyOutcome::PassThrough
    } else {
        RecorderKeyOutcome::Commit { modifiers: held_mod_flags(&mods), vk }
    }
}

/// What a key press does to the recorder.
#[derive(Debug, Clone, Copy, PartialEq, Eq, Structural)]
pub enum RecorderStep {
    /// The recorder is idle: the key is not its business.
    NotRecording,
    /// The key is not a complete combination: let it through and keep recording.
    PassThrough,
    /// Recording was cancelled; the old binding stays.
    Cancelled,
    /// A combination for `target`, to be applied (falling back to the previous one if
    /// it cannot be registered).
    Commit { target: u8, modifiers: u32, vk: u32, previous_modifiers: u32, previous_vk: u32 },
}

/// The recorder after a key press, and what the press means. Global hotkeys (targets
/// 1 and 2) need a real modifier; the Confirm and Dismiss bindings (targets 3 and 4)
/// may be bare keys. Cancelling and committing both end the recording.
pub fn recorder_key(state: &HotkeyRecorderState, vk: u32, mods: ModifierState) -> (r: (HotkeyRecorderState, RecorderStep))
    ensures
        match *state {
            HotkeyRecorderState::Idle => r == (HotkeyRecorderState::Idle, RecorderStep::NotRecording),
            HotkeyRecorderState::Recording { target, previous_modifiers, previous_vk } => {
                let outcome = if target <= 2 {
                    if vk == VK_ESCAPE {
                        RecorderKeyOutcome::Cancel
                    } else if is_modifier_key(vk) || !(mods.ctrl || mods.alt || mods.shift || mods.win) {
                        RecorderKeyOutcome::PassThrough
                    } else {
                        RecorderKeyOutcome::Commit { modifiers: MOD_NOREPEAT | held_flags(mods), vk }
                    }
                } else {
                    if vk == VK_ESCAPE {
                        RecorderKeyOutcome::Cancel
                    } else if is_modifier_key(vk) {
                        RecorderKeyOutcome::PassThrough
                    } else {
                        RecorderKeyOutcome::Commit { modifiers: held_flags(mods), vk }
                    }
                };
                match outcome {
                    RecorderKeyOutcome::PassThrough => r == (*state, RecorderStep::PassThrough),
                    RecorderKeyOutcome::Cancel => r == (HotkeyRecorderState::Idle, RecorderStep::Cancelled),
                    RecorderKeyOutcome::Commit { modifiers, vk } => r == (
                        HotkeyRecorderState::Idle,
                        RecorderStep::Commit { target, modifiers, vk, previous_modifiers, previous_vk },
                    ),
                }
            },
        },
        // a committed combination records each held modifier on its own flag (Ctrl 0x2,
        // Alt 0x1, Shift 0x4, Win 0x8) and nothing else, with the no-repeat flag exactly
        // for the global hotkeys, which also need some modifier held
        r.1 matches RecorderStep::Commit { target, modifiers, vk: key, .. } ==> {
            &&& key == vk
            &&& key != VK_ESCAPE
            &&& (modifiers & 0x2u32 != 0) == mods.ctrl
            &&& (modifiers & 0x1u32 != 0) == mods.alt
            &&& (modifiers & 0x4u32 != 0) == mods.shift
            &&& (modifiers & 0x8u32 != 0) == mods.win
            &&& modifiers & !0x400Fu32 == 0
            &&& (modifiers & 0x4000u32 != 0) == (target <= 2)
            &&& target <= 2 ==> (mods.ctrl || mods.alt || mods.shift || mods.win)
        },
{
    proof {
        lemma_held_flags_one_bit_per_modifier(mods);
        let h = held_flags(mods);
        let m = MOD_NOREPEAT | h;
        assert(m & 0x2u32 == h & 0x2u32 && m & 0x1u32 == h & 0x1u32 && m & 0x4u32 == h & 0x4u32 && m & 0x8u32
            == h & 0x8u32 && m & !0x400Fu32 == 0 && m & 0x4000u32 != 0 && h & 0x4000u32 == 0 && h & !0x400Fu32 == 0) by (bit_vector)
            requires
                m == 0x4000u32 | h,
                h & !0xFu32 == 0,
        ;
    }
    match state {
        HotkeyRecorderState::Idle => (HotkeyRecorderState::Idle, RecorderStep::NotRecording),
        HotkeyRecorderState::Recording { target, previous_modifiers, previous_vk } => {
            let outcome = if *target <= 2 {
                classify_recorder_key(vk, mods)
            } else {
                classify_binding_key(vk, mods)
            };
            match outcome {
                RecorderKeyOutcome::PassThrough => (*state, RecorderStep::PassThrough),
                RecorderKeyOutcome::Cancel => (HotkeyRecorderState::Idle, RecorderStep::Cancelled),
                RecorderKeyOutcome::Commit { modifiers, vk } => (
                    HotkeyRecorderState::Idle,
                    RecorderStep::Commit {
                        target: *target,
                        modifiers,
                        vk,
                        previous_modifiers: *previous_modifiers,
                        previous_vk: *previous_vk,
                    },
                ),
            }
        },
    }
}

/// Display text of a Confirm/Dismiss binding followed by its permanent fallback key.
pub open spec fn binding_text(modifiers: u32, vk: u32, fallback_vk: u32, bracketed: bool) -> Seq<char> {
    if vk == fallback_vk && modifiers == 0 {
        hotkey_text(modifiers, vk)
    } else if bracketed {
        hotkey_text(modifiers, vk) + " (or "@ + hotkey_text(0, fallback_vk) + ")"@
    } else {
        hotkey_text(modifiers, vk) + " or "@ + hotkey_text(0, fallback_vk)
    }
}

/// Render a Confirm/Dismiss binding, appending the permanent fallback key only when it
/// differs from the binding itself. `bracketed` parenthesizes the suffix.
pub fn binding_with_fallback(modifiers: u32, vk: u32, fallback_vk: u32, bracketed: bool) -> (r: String)
    ensures
        r@ == binding_text(modifiers, vk, fallback_vk, bracketed),
{
    let name = format_hotkey(modifiers, vk);
    if vk == fallback_vk && modifiers == 0 {
        return name;
    }
    let fallback = format_hotkey(0, fallback_vk);
    let mut s = name;
    if bracketed {
        s.append(" (or ");
        s.append(fallback.as_str());
        s.append(")");
    } else {
        s.append(" or ");
        s.append(fallback.as_str());
    }
    s
}

/// Hit-test rectangles of the settings controls, filled while the active page is
/// drawn. Controls of other pages keep an empty rectangle, which no point hits.
#[derive(Debug, Clone, Copy)]
pub struct ControlRects {
    /// Sidebar entries, in `SettingsPage::ALL` order.
    pub sidebar_items: [Rect; 4],
    pub main_hotkey: Rect,
    pub label_hotkey: Rect,
    pub confirm_hotkey: Rect,
    pub dismiss_hotkey: Rect,
    /// Tag-assign modifier buttons, in `ActionModifier::ALL` order.
    pub tag_modifier_buttons: [Rect; 4],
    /// Move-to-monitor modifier buttons, in `ActionModifier::ALL` order.
    pub move_modifier_buttons: [Rect; 4],
    pub direct_switch_toggle: Rect,
    pub launch_at_startup_toggle: Rect,
    /// Tracks of the six sliders (overlay opacity, background opacity, fade duration,
    /// grid padding, label font size, title font size).
    pub slider_tracks: [Rect; 6],
    pub reset_button: Rect,
    pub label_overlap_nudge: Rect,
    pub label_overlap_visible: Rect,
}

/// The empty rectangle at the origin.
pub fn empty_rect() -> (r: Rect)
    ensures
        r == (Rect { left: 0, top: 0, right: 0, bottom: 0 }),
{
    Rect { left: 0, top: 0, right: 0, bottom: 0 }
}

impl ControlRects {
    /// All rectangles empty: nothing can be clicked before the first paint.
    pub fn new() -> (r: Self)
        ensures
            forall|x: int, y: int| #[trigger] click_target(r, x, y) == ClickTarget::Nothing,
            all_empty(r),
    {
        let e = empty_rect();
        let r = ControlRects {
            sidebar_items: [e, e, e, e],
            main_hotkey: e,
            label_hotkey: e,
            confirm_hotkey: e,
            dismiss_hotkey: e,
            tag_modifier_buttons: [e, e, e, e],
            move_modifier_buttons: [e, e, e, e],
            direct_switch_toggle: e,
            launch_at_startup_toggle: e,
            slider_tracks: [e, e, e, e, e, e],
            reset_button: e,
            label_overlap_nudge: e,
            label_overlap_visible: e,
        };
        proof {
            assert forall|x: int, y: int| #[trigger] click_target(r, x, y) == ClickTarget::Nothing by {
                assert(forall|i: int| 0 <= i < 4 ==> #[trigger] r.sidebar_items@[i] == e);
                assert(forall|i: int| 0 <= i < 4 ==> #[trigger] r.tag_modifier_buttons@[i] == e);
                assert(forall|i: int| 0 <= i < 4 ==> #[trigger] r.move_modifier_buttons@[i] == e);
                assert(forall|i: int| 0 <= i < 6 ==> #[trigger] r.slider_tracks@[i] == e);
            }
        }
        r
    }
}

/// Every rectangle of `r` is the empty rectangle at the origin.
pub open spec fn all_empty(r: ControlRects) -> bool {
    let e = Rect { left: 0, top: 0, right: 0, bottom: 0 };
    &&& forall|i: int| 0 <= i < 4 ==> #[trigger] r.sidebar_items@[i] == e
    &&& forall|i: int| 0 <= i < 4 ==> #[trigger] r.tag_modifier_buttons@[i] == e
    &&& forall|i: int| 0 <= i < 4 ==> #[trigger] r.move_modifier_buttons@[i] == e
    &&& forall|i: int| 0 <= i < 6 ==> #[trigger] r.slider_tracks@[i] == e
    &&& r.main_hotkey == e && r.label_hotkey == e && r.confirm_hotkey == e && r.dismiss_hotkey == e
    &&& r.direct_switch_toggle == e && r.launch_at_startup_toggle == e && r.reset_button == e
    &&& r.label_overlap_nudge == e && r.label_overlap_visible == e
}

/// The control a click lands on.
#[derive(Debug, Clone, Copy, PartialEq, Eq, Structural)]
pub enum ClickTarget {
    /// A sidebar entry (index into `SettingsPage::ALL`).
    Sidebar(usize),
    /// A hotkey field: 1 main, 2 label, 3 confirm, 4 dismiss (the recorder's targets).
    HotkeyField(u8),
    /// A tag-assign modifier button (index into `ActionModifier::ALL`).
    TagModifier(usize),
    /// A move-to-monitor modifier button (index into `ActionModifier::ALL`).
    MoveModifier(usize),
    DirectSwitchToggle,
    LaunchAtStartupToggle,
    ResetButton,
    /// A label overlap strategy button.
    OverlapStrategy(LabelOverlapStrategy),
    /// A slider track (index into `ControlRects::slider_tracks`); starts a drag.
    Slider(usize),
    Nothing,
}

/// Whether `(x, y)` lies in `r` (left and top inclusive, right and bottom exclusive).
pub open spec fn in_rect(r: Rect, x: int, y: int) -> bool {
    r.left <= x < r.right && r.top <= y < r.bottom
}

/// Whether `(x, y)` lies in a slider track extended by 10 pixels above and below,
/// which makes starting a drag easier.
pub open spec fn in_slider_area(r: Rect, x: int, y: int) -> bool {
    r.left <= x < r.right && r.top - 10 <= y < r.bottom + 10
}

/// Index of the first of `rects` that holds `(x, y)`, if any.
pub open spec fn first_hit(rects: Seq<Rect>, x: int, y: int) -> Option<int> {
    if exists|i: int| 0 <= i < rects.len() && in_rect(#[trigger] rects[i], x, y) {
        Some(choose|i: int| 0 <= i < rects.len() && in_rect(#[trigger] rects[i], x, y)
            && forall|j: int| 0 <= j < i ==> !in_rect(#[trigger] rects[j], x, y))
    } else {
        None
    }
}

/// Index of the first slider whose extended area holds `(x, y)`, if any.
pub open spec fn first_slider_hit(tracks: Seq<Rect>, x: int, y: int) -> Option<int> {
    if exists|i: int| 0 <= i < tracks.len() && in_slider_area(#[trigger] tracks[i], x, y) {
        Some(choose|i: int| 0 <= i < tracks.len() && in_slider_area(#[trigger] tracks[i], x, y)
            && forall|j: int| 0 <= j < i ==> !in_slider_area(#[trigger] tracks[j], x, y))
    } else {
        None
    }
}

/// The control under `(x, y)`, checked in this order: sidebar, hotkey fields (main,
/// label, confirm, dismiss), modifier buttons (tag, then move), the two toggles, the
/// reset button, the overlap strategy buttons, and last the sliders.
pub open spec fn click_target(rects: ControlRects, x: int, y: int) -> ClickTarget {
    if first_hit(rects.sidebar_items@, x, y) is Some {
        ClickTarget::Sidebar(first_hit(rects.sidebar_items@, x, y)->0 as usize)
    } else if in_rect(rects.main_hotkey, x, y) {
        ClickTarget::HotkeyField(1)
    } else if in_rect(rects.label_hotkey, x, y) {
        ClickTarget::HotkeyField(2)
    } else if in_rect(rects.confirm_hotkey, x, y) {
        ClickTarget::HotkeyField(3)
    } else if in_rect(rects.dismiss_hotkey, x, y) {
        ClickTarget::HotkeyField(4)
    } else if first_hit(rects.tag_modifier_buttons@, x, y) is Some {
        ClickTarget::TagModifier(first_hit(rects.tag_modifier_buttons@, x, y)->0 as usize)
    } else if first_hit(rects.move_modifier_buttons@, x, y) is Some {
        ClickTarget::MoveModifier(first_hit(rects.move_modifier_buttons@, x, y)->0 as usize)
    } else if in_rect(rects.direct_switch_toggle, x, y) {
        ClickTarget::DirectSwitchToggle
    } else if in_rect(rects.launch_at_startup_toggle, x, y) {
        ClickTarget::LaunchAtStartupToggle
    } else if in_rect(rects.reset_button, x, y) {
        ClickTarget::ResetButton
    } else if in_rect(rects.label_overlap_nudge, x, y) {
        ClickTarget::OverlapStrategy(LabelOverlapStrategy::AutoNudge)
    } else if in_rect(rects.label_overlap_visible, x, y) {
        ClickTarget::OverlapStrategy(LabelOverlapStrategy::VisibleRegion)
    } else if first_slider_hit(rects.slider_tracks@, x, y) is Some {
        ClickTarget::Slider(first_slider_hit(rects.slider_tracks@, x, y)->0 as usize)
    } else {
        ClickTarget::Nothing
    }
}

/// Whether `(x, y)` lies in `r`.
pub fn point_in_rect(r: &Rect, x: i32, y: i32) -> (b: bool)
    ensures
        b == in_rect(*r, x as int, y as int),
{
    r.left <= x && x < r.right && r.top <= y && y < r.bottom
}

fn find_hit(rects: &[Rect], x: i32, y: i32) -> (r: Option<usize>)
    ensures
        match r {
            Some(i) => first_hit(rects@, x as int, y as int) == Some(i as int),
            None => first_hit(rects@, x as int, y as int) is None,
        },
{
    let mut i: usize = 0;
    while i < rects.len()
        invariant
            i <= rects@.len(),
            forall|j: int| 0 <= j < i ==> !in_rect(#[trigger] rects@[j], x as int, y as int),
        decreases rects@.len() - i,
    {
        if point_in_rect(&rects[i], x, y) {
            proof {
                let w = choose|k: int| 0 <= k < rects@.len() && in_rect(#[trigger] rects@[k], x as int, y as int)
                    && forall|j: int| 0 <= j < k ==> !in_rect(#[trigger] rects@[j], x as int, y as int);
                assert(in_rect(rects@[i as int], x as int, y as int));
                if w < i {
                } else if w > i {
                    assert(!in_rect(rects@[i as int], x as int, y as int));
                }
            }
            return Some(i);
        }
        i += 1;
    }
    None
}

fn in_slider_area_exec(r: &Rect, x: i32, y: i32) -> (b: bool)
    ensures
        b == in_slider_area(*r, x as int, y as int),
{
    let y64: i64 = y as i64;
    r.left <= x && x < r.right && (r.top as i64) - 10 <= y64 && y64 < (r.bottom as i64) + 10
}

fn find_slider_hit(tracks: &[Rect], x: i32, y: i32) -> (r: Option<usize>)
    ensures
        match r {
            Some(i) => first_slider_hit(tracks@, x as int, y as int) == Some(i as int),
            None => first_slider_hit(tracks@, x as int, y as int) is None,
        },
{
    let mut i: usize = 0;
    while i < tracks.len()
        invariant
            i <= tracks@.len(),
            forall|j: int| 0 <= j < i ==> !in_slider_area(#[trigger] tracks@[j], x as int, y as int),
        decreases tracks@.len() - i,
    {
        if in_slider_area_exec(&tracks[i], x, y) {
            proof {
                let w = choose|k: int| 0 <= k < tracks@.len() && in_slider_area(#[trigger] tracks@[k], x as int, y as int)
                    && forall|j: int| 0 <= j < k ==> !in_slider_area(#[trigger] tracks@[j], x as int, y as int);
                assert(in_slider_area(tracks@[i as int], x as int, y as int));
                if w < i {
                } else if w > i {
                    assert(!in_slider_area(tracks@[i as int], x as int, y as int));
                }
            }
            return Some(i);
        }
        i += 1;
    }
    None
}

/// The control under a click at `(x, y)`.
pub fn hit_test(rects: &ControlRects, x: i32, y: i32) -> (r: ClickTarget)
    ensures
        r == click_target(*rects, x as int, y as int),
{
    if let Some(i) = find_hit(&rects.sidebar_items, x, y) {
        return ClickTarget::Sidebar(i);
    }
    if point_in_rect(&rects.main_hotkey, x, y) {
        return ClickTarget::HotkeyField(1);
    }
    if point_in_rect(&rects.label_hotkey, x, y) {
        return ClickTarget::HotkeyField(2);
    }
    if point_in_rect(&rects.confirm_hotkey, x, y) {
        return ClickTarget::HotkeyField(3);
    }
    if point_in_rect(&rects.dismiss_hotkey, x, y) {
        return ClickTarget::HotkeyField(4);
    }
    if let Some(i) = find_hit(&rects.tag_modifier_buttons, x, y) {
        return ClickTarget::TagModifier(i);
    }
    if let Some(i) = find_hit(&rects.move_modifier_buttons, x, y) {
        return ClickTarget::MoveModifier(i);
    }
    if point_in_rect(&rects.direct_switch_toggle, x, y) {
        return ClickTarget::DirectSwitchToggle;
    }
    if point_in_rect(&rects.launch_at_startup_toggle, x, y) {
        return ClickTarget::LaunchAtStartupToggle;
    }
    if point_in_rect(&rects.reset_button, x, y) {
        return ClickTarget::ResetButton;
    }
    if point_in_rect(&rects.label_overlap_nudge, x, y) {
        return ClickTarget::OverlapStrategy(LabelOverlapStrategy::AutoNudge);
    }
    if point_in_rect(&rects.label_overlap_visible, x, y) {
        return ClickTarget::OverlapStrategy(LabelOverlapStrategy::VisibleRegion);
    }
    if let Some(i) = find_slider_hit(&rects.slider_tracks, x, y) {
        return ClickTarget::Slider(i);
    }
    ClickTarget::Nothing
}

/// Width of the settings window's client area.
pub const PANEL_WIDTH: i32 = 620;
/// Height of the settings window's client area.
pub const PANEL_HEIGHT: i32 = 560;
/// Width of the navigation rail on the left.
pub const SIDEBAR_WIDTH: i32 = 140;
/// Left edge of page content.
pub const CONTENT_LEFT: i32 = 164;
/// Right edge of page content.
pub const CONTENT_RIGHT: i32 = 596;
/// Left edge of the controls that follow a row label.
pub const CONTROL_LEFT: i32 = 344;

/// Sidebar entry `i`: 44 pixels high, 6 pixels apart, starting 20 pixels down.
pub open spec fn sidebar_rect(i: int) -> Rect {
    Rect { left: 12, top: (20 + 50 * i) as i32, right: 128, bottom: (64 + 50 * i) as i32 }
}

/// Modifier option button `i` of a row whose top is `top`: four buttons of 102 pixels,
/// 8 pixels apart, across the content width.
pub open spec fn modifier_button_rect(i: int, top: int) -> Rect {
    Rect { left: (164 + 110 * i) as i32, top: top as i32, right: (266 + 110 * i) as i32, bottom: (top + 28) as i32 }
}

/// Track of slider `i` on the Appearance page: one row of 40 pixels per slider.
pub open spec fn slider_track_rect(i: int) -> Rect {
    Rect { left: CONTROL_LEFT, top: (62 + 40 * i) as i32, right: 541, bottom: (68 + 40 * i) as i32 }
}

/// A hotkey field of the Keybindings page whose top is `top`.
pub open spec fn hotkey_field_rect(top: int) -> Rect {
    Rect { left: CONTROL_LEFT, top: top as i32, right: CONTENT_RIGHT, bottom: (top + 30) as i32 }
}

/// The footer button "Reset to Defaults", centred under the content on every page.
pub open spec fn reset_button_rect() -> Rect {
    Rect { left: 280, top: 500, right: 480, bottom: 536 }
}

/// The empty rectangle, used for the controls of other pages.
pub open spec fn no_rect() -> Rect {
    Rect { left: 0, top: 0, right: 0, bottom: 0 }
}

/// The hit-test layout of `page`: the sidebar and the reset button on every page, the
/// page's own controls where they are drawn, and empty rectangles for all others.
pub open spec fn is_page_layout(r: ControlRects, page: SettingsPage) -> bool {
    let keys = page == SettingsPage::Keybindings;
    let behavior = page == SettingsPage::Behavior;
    let appearance = page == SettingsPage::Appearance;
    &&& forall|i: int| 0 <= i < 4 ==> #[trigger] r.sidebar_items@[i] == sidebar_rect(i)
    &&& r.reset_button == reset_button_rect()
    &&& r.main_hotkey == (if keys { hotkey_field_rect(50) } else { no_rect() })
    &&& r.label_hotkey == (if keys { hotkey_field_rect(90) } else { no_rect() })
    &&& r.confirm_hotkey == (if keys { hotkey_field_rect(170) } else { no_rect() })
    &&& r.dismiss_hotkey == (if keys { hotkey_field_rect(210) } else { no_rect() })
    &&& forall|i: int| 0 <= i < 4 ==> #[trigger] r.tag_modifier_buttons@[i] == (if keys {
        modifier_button_rect(i, 296)
    } else {
        no_rect()
    })
    &&& forall|i: int| 0 <= i < 4 ==> #[trigger] r.move_modifier_buttons@[i] == (if keys {
        modifier_button_rect(i, 366)
    } else {
        no_rect()
    })
    &&& r.direct_switch_toggle == (if behavior { Rect { left: 536, top: 50, right: 596, bottom: 74 } } else { no_rect() })
    &&& r.launch_at_startup_toggle == (if behavior {
        Rect { left: 536, top: 90, right: 596, bottom: 114 }
    } else {
        no_rect()
    })
    &&& r.label_overlap_nudge == (if behavior { Rect { left: 328, top: 170, right: 458, bottom: 198 } } else { no_rect() })
    &&& r.label_overlap_visible == (if behavior {
        Rect { left: 466, top: 170, right: 596, bottom: 198 }
    } else {
        no_rect()
    })
    &&& forall|i: int| 0 <= i < 6 ==> #[trigger] r.slider_tracks@[i] == (if appearance {
        slider_track_rect(i)
    } else {
        no_rect()
    })
}

/// On the Keybindings page a click anywhere inside a drawn hotkey field (x 344..596)
/// starts recording that field: the Main Overlay field (y 50..80), the Label Mode field
/// (y 90..120), the Confirm field (y 170..200) and the Dismiss field (y 210..240). On
/// every other page no click reaches a hotkey field.
pub proof fn lemma_hotkey_fields_reachable(r: ControlRects, page: SettingsPage, x: int, y: int)
    requires
        is_page_layout(r, page),
    ensures
        page == SettingsPage::Keybindings && 344 <= x < 596 && 50 <= y < 80 ==> click_target(r, x, y)
            == ClickTarget::HotkeyField(1),
        page == SettingsPage::Keybindings && 344 <= x < 596 && 90 <= y < 120 ==> click_target(r, x, y)
            == ClickTarget::HotkeyField(2),
        page == SettingsPage::Keybindings && 344 <= x < 596 && 170 <= y < 200 ==> click_target(r, x, y)
            == ClickTarget::HotkeyField(3),
        page == SettingsPage::Keybindings && 344 <= x < 596 && 210 <= y < 240 ==> click_target(r, x, y)
            == ClickTarget::HotkeyField(4),
        page != SettingsPage::Keybindings ==> !(click_target(r, x, y) is HotkeyField),
{
    if x >= 344 {
        assert forall|i: int| 0 <= i < 4 implies !in_rect(#[trigger] r.sidebar_items@[i], x, y) by {
            assert(r.sidebar_items@[i] == sidebar_rect(i));
        }
        assert(first_hit(r.sidebar_items@, x, y) is None);
    }
}

proof fn lemma_first_hit_is(rects: Seq<Rect>, x: int, y: int, i: int)
    requires
        0 <= i < rects.len(),
        in_rect(rects[i], x, y),
        forall|j: int| 0 <= j < rects.len() && j != i ==> !in_rect(#[trigger] rects[j], x, y),
    ensures
        first_hit(rects, x, y) == Some(i),
{
    assert(in_rect(rects[i], x, y));
    let k = choose|k: int| 0 <= k < rects.len() && in_rect(#[trigger] rects[k], x, y)
        && forall|j: int| 0 <= j < k ==> !in_rect(#[trigger] rects[j], x, y);
    if k != i {
        assert(!in_rect(rects[k], x, y));
    }
}

proof fn lemma_first_slider_hit_is(tracks: Seq<Rect>, x: int, y: int, i: int)
    requires
        0 <= i < tracks.len(),
        in_slider_area(tracks[i], x, y),
        forall|j: int| 0 <= j < tracks.len() && j != i ==> !in_slider_area(#[trigger] tracks[j], x, y),
    ensures
        first_slider_hit(tracks, x, y) == Some(i),
{
    assert(in_slider_area(tracks[i], x, y));
    let k = choose|k: int| 0 <= k < tracks.len() && in_slider_area(#[trigger] tracks[k], x, y)
        && forall|j: int| 0 <= j < k ==> !in_slider_area(#[trigger] tracks[j], x, y);
    if k != i {
        assert(!in_slider_area(tracks[k], x, y));
    }
}

/// Every control of every page is hit where it is drawn: sidebar entry `i` at
/// x 12..128, y 20+50i..64+50i; the reset button at x 280..480, y 500..536; on the
/// Keybindings page the tag and move modifier buttons `i` at x 164+110i..266+110i,
/// y 296..324 and y 366..394; on the Behavior page the Direct Switch toggle at
/// x 536..596, y 50..74, the Launch at Startup toggle at y 90..114, and the two overlap
/// buttons at y 170..198 (x 328..458 and 466..596); on the Appearance page slider `i`
/// along x 344..541 within 10 pixels of its track at y 62+40i..68+40i.
pub proof fn lemma_controls_hit_where_drawn(r: ControlRects, page: SettingsPage, x: int, y: int, i: int)
    requires
        is_page_layout(r, page),
    ensures
        0 <= i < 4 && 12 <= x < 128 && 20 + 50 * i <= y < 64 + 50 * i ==> click_target(r, x, y)
            == ClickTarget::Sidebar(i as usize),
        280 <= x < 480 && 500 <= y < 536 ==> click_target(r, x, y) == ClickTarget::ResetButton,
        page == SettingsPage::Keybindings && 0 <= i < 4 && 164 + 110 * i <= x < 266 + 110 * i && 296 <= y < 324
            ==> click_target(r, x, y) == ClickTarget::TagModifier(i as usize),
        page == SettingsPage::Keybindings && 0 <= i < 4 && 164 + 110 * i <= x < 266 + 110 * i && 366 <= y < 394
            ==> click_target(r, x, y) == ClickTarget::MoveModifier(i as usize),
        page == SettingsPage::Behavior && 536 <= x < 596 && 50 <= y < 74 ==> click_target(r, x, y)
            == ClickTarget::DirectSwitchToggle,
        page == SettingsPage::Behavior && 536 <= x < 596 && 90 <= y < 114 ==> click_target(r, x, y)
            == ClickTarget::LaunchAtStartupToggle,
        page == SettingsPage::Behavior && 328 <= x < 458 && 170 <= y < 198 ==> click_target(r, x, y)
            == ClickTarget::OverlapStrategy(LabelOverlapStrategy::AutoNudge),
        page == SettingsPage::Behavior && 466 <= x < 596 && 170 <= y < 198 ==> click_target(r, x, y)
            == ClickTarget::OverlapStrategy(LabelOverlapStrategy::VisibleRegion),
        page == SettingsPage::Appearance && 0 <= i < 6 && 344 <= x < 541 && 52 + 40 * i <= y < 78 + 40 * i
            ==> click_target(r, x, y) == ClickTarget::Slider(i as usize),
{
    assert forall|j: int| 0 <= j < 4 implies #[trigger] r.sidebar_items@[j] == sidebar_rect(j) by {}
    assert forall|j: int| 0 <= j < 4 implies #[trigger] r.tag_modifier_buttons@[j] == (if page == SettingsPage::Keybindings {
        modifier_button_rect(j, 296)
    } else {
        no_rect()
    }) by {}
    assert forall|j: int| 0 <= j < 4 implies #[trigger] r.move_modifier_buttons@[j] == (if page == SettingsPage::Keybindings {
        modifier_button_rect(j, 366)
    } else {
        no_rect()
    }) by {}
    assert forall|j: int| 0 <= j < 6 implies #[trigger] r.slider_tracks@[j] == (if page == SettingsPage::Appearance {
        slider_track_rect(j)
    } else {
        no_rect()
    }) by {}
    if x >= 128 || y < 20 || y >= 214 {
        assert forall|j: int| 0 <= j < 4 implies !in_rect(#[trigger] r.sidebar_items@[j], x, y) by {}
        assert(first_hit(r.sidebar_items@, x, y) is None);
    }
    if y < 296 || y >= 394 || (324 <= y < 366) {
        assert forall|j: int| 0 <= j < 4 implies !in_rect(#[trigger] r.tag_modifier_buttons@[j], x, y) by {}
        assert(first_hit(r.tag_modifier_buttons@, x, y) is None);
        assert forall|j: int| 0 <= j < 4 implies !in_rect(#[trigger] r.move_modifier_buttons@[j], x, y) by {}
        assert(first_hit(r.move_modifier_buttons@, x, y) is None);
    }
    if page != SettingsPage::Keybindings {
        assert forall|j: int| 0 <= j < 4 implies !in_rect(#[trigger] r.tag_modifier_buttons@[j], x, y) by {}
        assert(first_hit(r.tag_modifier_buttons@, x, y) is None);
        assert forall|j: int| 0 <= j < 4 implies !in_rect(#[trigger] r.move_modifier_buttons@[j], x, y) by {}
        assert(first_hit(r.move_modifier_buttons@, x, y) is None);
    }
    if page != SettingsPage::Appearance || y >= 500 {
        assert forall|j: int| 0 <= j < 6 implies !in_slider_area(#[trigger] r.slider_tracks@[j], x, y) by {}
        assert(first_slider_hit(r.slider_tracks@, x, y) is None);
    }
    if 0 <= i < 4 && 12 <= x < 128 && 20 + 50 * i <= y < 64 + 50 * i {
        lemma_first_hit_is(r.sidebar_items@, x, y, i);
    }
    if page == SettingsPage::Keybindings && 0 <= i < 4 && 164 + 110 * i <= x < 266 + 110 * i {
        if 296 <= y < 324 {
            lemma_first_hit_is(r.tag_modifier_buttons@, x, y, i);
        }
        if 366 <= y < 394 {
            assert forall|j: int| 0 <= j < 4 implies !in_rect(#[trigger] r.tag_modifier_buttons@[j], x, y) by {}
            assert(first_hit(r.tag_modifier_buttons@, x, y) is None);
            lemma_first_hit_is(r.move_modifier_buttons@, x, y, i);
        }
    }
    if page == SettingsPage::Appearance && 0 <= i < 6 && 344 <= x < 541 && 52 + 40 * i <= y < 78 + 40 * i {
        lemma_first_slider_hit_is(r.slider_tracks@, x, y, i);
    }
}

fn rect_of(left: i32, top: i32, right: i32, bottom: i32) -> (r: Rect)
    ensures
        r == (Rect { left, top, right, bottom }),
{
    Rect { left, top, right, bottom }
}

/// The hit-test rectangles of the controls drawn on `page`.
pub fn settings_layout(page: SettingsPage) -> (r: ControlRects)
    ensures
        is_page_layout(r, page),
{
    let e = empty_rect();
    let keys = page == SettingsPage::Keybindings;
    let behavior = page == SettingsPage::Behavior;
    let appearance = page == SettingsPage::Appearance;
    let mut r = ControlRects::new();
    r.sidebar_items = [rect_of(12, 20, 128, 64), rect_of(12, 70, 128, 114), rect_of(12, 120, 128, 164), rect_of(
        12,
        170,
        128,
        214,
    )];
    r.reset_button = rect_of(280, 500, 480, 536);
    if keys {
        r.main_hotkey = rect_of(CONTROL_LEFT, 50, CONTENT_RIGHT, 80);
        r.label_hotkey = rect_of(CONTROL_LEFT, 90, CONTENT_RIGHT, 120);
        r.confirm_hotkey = rect_of(CONTROL_LEFT, 170, CONTENT_RIGHT, 200);
        r.dismiss_hotkey = rect_of(CONTROL_LEFT, 210, CONTENT_RIGHT, 240);
        r.tag_modifier_buttons = [rect_of(164, 296, 266, 324), rect_of(274, 296, 376, 324), rect_of(
            384,
            296,
            486,
            324,
        ), rect_of(494, 296, 596, 324)];
        r.move_modifier_buttons = [rect_of(164, 366, 266, 394), rect_of(274, 366, 376, 394), rect_of(
            384,
            366,
            486,
            394,
        ), rect_of(494, 366, 596, 394)];
    }
    if behavior {
        r.direct_switch_toggle = rect_of(536, 50, 596, 74);
        r.launch_at_startup_toggle = rect_of(536, 90, 596, 114);
        r.label_overlap_nudge = rect_of(328, 170, 458, 198);
        r.label_overlap_visible = rect_of(466, 170, 596, 198);
    }
    if appearance {
        r.slider_tracks = [rect_of(CONTROL_LEFT, 62, 541, 68), rect_of(CONTROL_LEFT, 102, 541, 108), rect_of(
            CONTROL_LEFT,
            142,
            541,
            148,
        ), rect_of(CONTROL_LEFT, 182, 541, 188), rect_of(CONTROL_LEFT, 222, 541, 228), rect_of(CONTROL_LEFT, 262, 541, 268)];
    }
    assert(e == no_rect());
    r
}

/// Display name of an action modifier.
pub open spec fn modifier_name(m: ActionModifier) -> Seq<char> {
    match m {
        ActionModifier::Ctrl => "Ctrl"@,
        ActionModifier::Alt => "Alt"@,
        ActionModifier::Shift => "Shift"@,
        ActionModifier::Win => "Win"@,
    }
}

/// Text of hotkey field `field` (1 main, 2 label, 3 confirm, 4 dismiss): a prompt while
/// it records, else its error if there is one, else the binding (the confirm and
/// dismiss bindings followed by their permanent fallback keys, Space and Escape).
pub open spec fn field_text(field: u8, recording_target: u8, error: Seq<char>, modifiers: u32, vk: u32) -> Seq<char> {
    if recording_target == field {
        if field <= 2 { "Press a key combination..."@ } else { "Press a key..."@ }
    } else if error.len() > 0 {
        error
    } else if field <= 2 {
        hotkey_text(modifiers, vk)
    } else if field == 3 {
        binding_text(modifiers, vk, VK_SPACE, true)
    } else {
        binding_text(modifiers, vk, VK_ESCAPE, true)
    }
}

/// The text shown in a hotkey field of the Keybindings page.
pub fn hotkey_field_text(field: u8, recording_target: u8, error: &str, modifiers: u32, vk: u32) -> (r: String)
    requires
        1 <= field <= 4,
    ensures
        r@ == field_text(field, recording_target, error@, modifiers, vk),
{
    if recording_target == field {
        if field <= 2 {
            String::from_str("Press a key combination...")
        } else {
            String::from_str("Press a key...")
        }
    } else if error.unicode_len() > 0 {
        error.to_string()
    } else if field <= 2 {
        format_hotkey(modifiers, vk)
    } else if field == 3 {
        binding_with_fallback(modifiers, vk, VK_SPACE, true)
    } else {
        binding_with_fallback(modifiers, vk, VK_ESCAPE, true)
    }
}

/// The rows of the Guide page, each a key and what it does, built from the live
/// bindings so the page can never disagree with them.
pub open spec fn guide_rows_text(
    hotkey_modifiers: u32,
    hotkey_vk: u32,
    label_modifiers: u32,
    label_vk: u32,
    b: Keybindings,
) -> Seq<(Seq<char>, Seq<char>)> {
    seq![
        (hotkey_text(hotkey_modifiers, hotkey_vk), "Open the overlay"@),
        (hotkey_text(label_modifiers, label_vk), "Open label mode"@),
        ("A-Z"@, "Select a window by its letter"@),
        (binding_text(b.confirm_modifiers, b.confirm_vk, VK_SPACE, false), "Confirm the selection"@),
        (binding_text(b.dismiss_modifiers, b.dismiss_vk, VK_ESCAPE, false), "Dismiss the overlay"@),
        (modifier_name(b.tag_modifier) + "+1-9"@, "Assign a tag to the selected window"@),
        ("1-9"@, "Jump to a tagged window"@),
        (modifier_name(b.move_modifier) + "+1-9"@, "Move the selected window to a monitor"@),
    ]
}

fn modifier_digits(m: ActionModifier) -> (r: String)
    ensures
        r@ == modifier_name(m) + "+1-9"@,
{
    let mut s = String::from_str(m.display_name());
    s.append("+1-9");
    s
}

/// The rows of the Guide page: (key, description).
pub fn guide_rows(
    hotkey_modifiers: u32,
    hotkey_vk: u32,
    label_modifiers: u32,
    label_vk: u32,
    bindings: &Keybindings,
) -> (r: Vec<(String, &'static str)>)
    ensures
        r@.len() == 8,
        forall|i: int| 0 <= i < 8 ==> (#[trigger] r@[i]).0@ == guide_rows_text(
            hotkey_modifiers,
            hotkey_vk,
            label_modifiers,
            label_vk,
            *bindings,
        )[i].0 && r@[i].1@ == guide_rows_text(hotkey_modifiers, hotkey_vk, label_modifiers, label_vk, *bindings)[i].1,
{
    let mut r: Vec<(String, &'static str)> = Vec::new();
    r.push((format_hotkey(hotkey_modifiers, hotkey_vk), "Open the overlay"));
    r.push((format_hotkey(label_modifiers, label_vk), "Open label mode"));
    r.push((String::from_str("A-Z"), "Select a window by its letter"));
    r.push((binding_with_fallback(bindings.confirm_modifiers, bindings.confirm_vk, VK_SPACE, false), "Confirm the selection"));
    r.push((binding_with_fallback(bindings.dismiss_modifiers, bindings.dismiss_vk, VK_ESCAPE, false), "Dismiss the overlay"));
    r.push((modifier_digits(bindings.tag_modifier), "Assign a tag to the selected window"));
    r.push((String::from_str("1-9"), "Jump to a tagged window"));
    r.push((modifier_digits(bindings.move_modifier), "Move the selected window to a monitor"));
    r
}

} // verus!
