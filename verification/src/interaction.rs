//! Keyboard decisions of the overlay: what a key press, a hotkey press or a
//! focus loss does in each overlay state.
//!
//! Everything here works on plain data; reading the physical modifier state and
//! asking the OS whether a window still exists happen in the caller.
use vstd::prelude::*;
use crate::config::ActionModifier;
use crate::keycodes::{
    MOD_ALT, MOD_CONTROL, MOD_SHIFT, MOD_WIN, VK_0, VK_1, VK_9, VK_A, VK_ESCAPE, VK_RETURN, VK_SPACE, VK_Z,
};
use crate::letter_assignment::{
    find_by_letter, lemma_find_assigned_letter, lemma_letter_sequence_distinct, letter_for_index, with_letter,
    LETTER_SEQUENCE,
};
use crate::state::{without_window, OverlayState, SessionTags};
use crate::window_info::WindowInfo;

verus! {

/// Physical modifier key state, read once by the caller and passed down as plain data.
#[derive(Debug, Clone, Copy, PartialEq, Eq, Structural)]
pub struct ModifierState {
    pub ctrl: bool,
    pub alt: bool,
    pub shift: bool,
    pub win: bool,
}

impl Default for ModifierState {
    fn default() -> (r: Self)
        ensures
            !r.ctrl && !r.alt && !r.shift && !r.win,
    {
        ModifierState { ctrl: false, alt: false, shift: false, win: false }
    }
}

/// The user's configurable in-overlay keybindings.
#[derive(Debug, Clone, Copy, PartialEq, Eq, Structural)]
pub struct Keybindings {
    pub confirm_modifiers: u32,
    pub confirm_vk: u32,
    pub dismiss_modifiers: u32,
    pub dismiss_vk: u32,
    pub tag_modifier: ActionModifier,
    pub move_modifier: ActionModifier,
}

impl Default for Keybindings {
    /// Enter confirms, Escape dismisses, Ctrl assigns tags, Shift moves windows.
    fn default() -> (r: Self)
        ensures
            r.confirm_modifiers == 0,
            r.confirm_vk == VK_RETURN,
            r.dismiss_modifiers == 0,
            r.dismiss_vk == VK_ESCAPE,
            r.tag_modifier == ActionModifier::Ctrl,
            r.move_modifier == ActionModifier::Shift,
    {
        Keybindings {
            confirm_modifiers: 0,
            confirm_vk: VK_RETURN,
            dismiss_modifiers: 0,
            dismiss_vk: VK_ESCAPE,
            tag_modifier: ActionModifier::Ctrl,
            move_modifier: ActionModifier::Shift,
        }
    }
}

/// Whether `action_mod` is physically held in `mods`.
pub open spec fn modifier_held(action_mod: ActionModifier, mods: ModifierState) -> bool {
    match action_mod {
        ActionModifier::Ctrl => mods.ctrl,
        ActionModifier::Alt => mods.alt,
        ActionModifier::Shift => mods.shift,
        ActionModifier::Win => mods.win,
    }
}

/// The held modifiers as `MOD_*` flags.
pub open spec fn held_flags(mods: ModifierState) -> u32 {
    (if mods.ctrl { MOD_CONTROL } else { 0u32 }) | (if mods.alt { MOD_ALT } else { 0u32 }) | (if mods.shift {
        MOD_SHIFT
    } else {
        0u32
    }) | (if mods.win { MOD_WIN } else { 0u32 })
}

/// A binding recorded without modifiers fires on the key alone whatever else is held;
/// a modifier-qualified binding needs exactly its modifiers.
pub open spec fn binding_matches(held: u32, configured: u32) -> bool {
    configured == 0 || held == configured
}

/// True if `action_mod` is the modifier currently held in `mods`.
pub fn modifier_matches(action_mod: ActionModifier, mods: &ModifierState) -> (r: bool)
    ensures
        r == modifier_held(action_mod, *mods),
{
    match action_mod {
        ActionModifier::Ctrl => mods.ctrl,
        ActionModifier::Alt => mods.alt,
        ActionModifier::Shift => mods.shift,
        ActionModifier::Win => mods.win,
    }
}

/// Pack the held modifiers into `MOD_*` flags, for comparison with configured bindings.
pub fn held_mod_flags(mods: &ModifierState) -> (r: u32)
    ensures
        r == held_flags(*mods),
{
    (if mods.ctrl { MOD_CONTROL } else { 0u32 }) | (if mods.alt { MOD_ALT } else { 0u32 }) | (if mods.shift {
        MOD_SHIFT
    } else {
        0u32
    }) | (if mods.win { MOD_WIN } else { 0u32 })
}

/// Does the held modifier set satisfy a configured binding?
pub fn binding_modifiers_match(held: u32, configured: u32) -> (r: bool)
    ensures
        r == binding_matches(held, configured),
{
    configured == 0 || held == configured
}

/// Result of the activation hotkey being pressed.
#[derive(Debug, Clone, Copy, PartialEq, Eq, Structural)]
pub enum HotkeyAction {
    /// Overlay should be activated (it was hidden).
    Activate,
    /// Overlay should be dismissed (it was active or fading in).
    Dismiss,
    /// Nothing to do (already dismissing, or in label mode).
    NoAction,
}

/// What the activation hotkey does in `state`.
pub fn handle_hotkey_event(state: &OverlayState) -> (r: HotkeyAction)
    ensures
        r == (match *state {
            OverlayState::Hidden => HotkeyAction::Activate,
            OverlayState::FadingIn | OverlayState::Active { .. } => HotkeyAction::Dismiss,
            OverlayState::FadingOut { .. } | OverlayState::LabelMode { .. } => HotkeyAction::NoAction,
        }),
{
    match state {
        OverlayState::Hidden => HotkeyAction::Activate,
        OverlayState::FadingIn | OverlayState::Active { .. } => HotkeyAction::Dismiss,
        OverlayState::FadingOut { .. } => HotkeyAction::NoAction,
        OverlayState::LabelMode { .. } => HotkeyAction::NoAction,
    }
}

/// Whether losing focus (e.g. to Alt+Tab) dismisses the overlay in `state`.
pub fn handle_focus_lost(state: &OverlayState) -> (r: bool)
    ensures
        r == (*state is Active || *state is FadingIn || *state is LabelMode),
{
    match state {
        OverlayState::Active { .. } | OverlayState::FadingIn | OverlayState::LabelMode { .. } => true,
        _ => false,
    }
}

/// Result of a key press while the overlay is up.
#[derive(Debug, Clone, Copy, PartialEq, Eq, Structural)]
pub enum KeyAction {
    /// Key ignored.
    NoAction,
    /// A window was selected (its index); triggers a redraw.
    Select(usize),
    /// Switch to the given window (starts the hide).
    SwitchTo(isize),
    /// Dismiss without switching (then restore the previous focus).
    Dismiss,
    /// A tag number was assigned to the selected window.
    TagAssigned { number: u8, hwnd: isize },
    /// Move the window to the centre of the monitor at `monitor_index`, then switch to it.
    MoveToMonitor { hwnd: isize, monitor_index: usize },
}

/// The tag digit 1–9 of a digit key; `None` for '0' and every other key.
pub open spec fn digit_of(vk: u32) -> Option<u8> {
    if VK_1 <= vk <= VK_9 {
        Some((vk - VK_0) as u8)
    } else {
        None
    }
}

/// The lowercase letter of a letter key.
pub open spec fn letter_of(vk: u32) -> Option<char> {
    if VK_A <= vk <= VK_Z {
        Some((97 + vk - VK_A) as char)
    } else {
        None
    }
}

/// Whether some window of the snapshot carries `letter`.
pub open spec fn has_letter(windows: Seq<WindowInfo>, letter: char) -> bool {
    exists|i: int| 0 <= i < windows.len() && #[trigger] windows[i].letter == Some(letter)
}

/// Index of the first window carrying `letter` (meaningful when `has_letter`).
pub open spec fn first_with_letter(windows: Seq<WindowInfo>, letter: char) -> int {
    choose|i: int| 0 <= i < windows.len() && windows[i].letter == Some(letter)
        && forall|j: int| 0 <= j < i ==> #[trigger] windows[j].letter != Some(letter)
}

/// The switch a confirm key triggers: the selected window, in the active grid or in label mode.
pub open spec fn confirm_action(state: OverlayState, windows: Seq<WindowInfo>) -> KeyAction {
    match state {
        OverlayState::Active { selected: Some(idx) } | OverlayState::LabelMode { selected: Some(idx) } => {
            if idx < windows.len() {
                KeyAction::SwitchTo(windows[idx as int].hwnd)
            } else {
                KeyAction::NoAction
            }
        },
        _ => KeyAction::NoAction,
    }
}

/// Decision table of a key press.
///
/// `tagged_alive` says whether the window holding the pressed digit's tag still exists.
pub open spec fn key_action(
    vk: u32,
    state: OverlayState,
    windows: Seq<WindowInfo>,
    tags: Map<u8, isize>,
    direct_switch: bool,
    monitor_count: usize,
    b: Keybindings,
    mods: ModifierState,
    tagged_alive: bool,
) -> KeyAction {
    let held = held_flags(mods);
    if state is FadingOut || state is Hidden {
        KeyAction::NoAction
    } else if digit_of(vk) is Some {
        let num = digit_of(vk)->0;
        if modifier_held(b.tag_modifier, mods) {
            match state {
                OverlayState::Active { selected: Some(idx) } => if idx < windows.len() {
                    KeyAction::TagAssigned { number: num, hwnd: windows[idx as int].hwnd }
                } else {
                    KeyAction::NoAction
                },
                _ => KeyAction::NoAction,
            }
        } else if modifier_held(b.move_modifier, mods) {
            match state {
                OverlayState::Active { selected: Some(idx) } => if num - 1 < monitor_count && idx < windows.len() {
                    KeyAction::MoveToMonitor { hwnd: windows[idx as int].hwnd, monitor_index: (num - 1) as usize }
                } else {
                    KeyAction::NoAction
                },
                _ => KeyAction::NoAction,
            }
        } else if tags.contains_key(num) && tagged_alive {
            KeyAction::SwitchTo(tags[num])
        } else {
            KeyAction::NoAction
        }
    } else if b.confirm_modifiers != 0 && vk == b.confirm_vk && held == b.confirm_modifiers {
        confirm_action(state, windows)
    } else if b.dismiss_modifiers != 0 && vk == b.dismiss_vk && held == b.dismiss_modifiers {
        KeyAction::Dismiss
    } else if letter_of(vk) is Some {
        let letter = letter_of(vk)->0;
        if has_letter(windows, letter) {
            let idx = first_with_letter(windows, letter);
            let suppress = modifier_held(b.tag_modifier, mods) || modifier_held(b.move_modifier, mods);
            if (direct_switch && !suppress) || state is LabelMode {
                KeyAction::SwitchTo(windows[idx].hwnd)
            } else {
                KeyAction::Select(idx as usize)
            }
        } else {
            KeyAction::NoAction
        }
    } else if vk == VK_SPACE || (vk == b.confirm_vk && binding_matches(held, b.confirm_modifiers)) {
        confirm_action(state, windows)
    } else if vk == VK_ESCAPE {
        KeyAction::Dismiss
    } else if vk == b.dismiss_vk && binding_matches(held, b.dismiss_modifiers) {
        KeyAction::Dismiss
    } else {
        KeyAction::NoAction
    }
}

/// The tag store after a key press: a tag assignment inserts, a jump to a tag whose
/// window no longer exists drops that window's tags, everything else leaves it alone.
pub open spec fn tags_after_key(
    vk: u32,
    state: OverlayState,
    windows: Seq<WindowInfo>,
    tags: Map<u8, isize>,
    b: Keybindings,
    mods: ModifierState,
    tagged_alive: bool,
) -> Map<u8, isize> {
    if state is FadingOut || state is Hidden || digit_of(vk) is None {
        tags
    } else {
        let num = digit_of(vk)->0;
        if modifier_held(b.tag_modifier, mods) {
            match state {
                OverlayState::Active { selected: Some(idx) } => if idx < windows.len() {
                    tags.insert(num, windows[idx as int].hwnd)
                } else {
                    tags
                },
                _ => tags,
            }
        } else if modifier_held(b.move_modifier, mods) {
            tags
        } else if tags.contains_key(num) && !tagged_alive {
            without_window(tags, tags[num])
        } else {
            tags
        }
    }
}

/// Convert a virtual key code to a tag digit 1–9 (`None` for '0' and non-digits).
pub fn vk_to_digit(vk: u32) -> (r: Option<u8>)
    ensures
        r == digit_of(vk),
{
    if VK_1 <= vk && vk <= VK_9 {
        Some((vk - VK_0) as u8)
    } else {
        None
    }
}

/// Convert a letter key code to its lowercase letter.
pub fn vk_to_letter(vk: u32) -> (r: Option<char>)
    ensures
        r == letter_of(vk),
{
    if VK_A <= vk && vk <= VK_Z {
        let b: u8 = 97 + (vk - VK_A) as u8;
        Some(b as char)
    } else {
        None
    }
}

/// The window whose existence decides a tag jump: when `vk` is a digit pressed with
/// neither the tag nor the move modifier, in a state that accepts input, the window
/// holding that digit's tag (if any). The caller asks the OS about it and passes the
/// answer to `handle_key_down_with_modifiers`.
pub fn tag_jump_target(
    vk_code: u32,
    state: &OverlayState,
    tags: &SessionTags,
    bindings: &Keybindings,
    mods: ModifierState,
) -> (r: Option<isize>)
    ensures
        r == (if !(*state is FadingOut || *state is Hidden) && digit_of(vk_code) is Some
            && !modifier_held(bindings.tag_modifier, mods) && !modifier_held(bindings.move_modifier, mods)
            && tags@.contains_key(digit_of(vk_code)->0) {
            Some(tags@[digit_of(vk_code)->0])
        } else {
            None
        }),
{
    match state {
        OverlayState::FadingOut { .. } | OverlayState::Hidden => { return None; },
        _ => {},
    }
    match vk_to_digit(vk_code) {
        Some(num) => {
            if modifier_matches(bindings.tag_modifier, &mods) || modifier_matches(bindings.move_modifier, &mods) {
                None
            } else {
                tags.get(num)
            }
        },
        None => None,
    }
}

/// No key does anything while the overlay is hidden or fading out.
pub proof fn lemma_no_input_while_hidden_or_fading_out(
    vk: u32,
    state: OverlayState,
    windows: Seq<WindowInfo>,
    tags: Map<u8, isize>,
    direct_switch: bool,
    monitor_count: usize,
    b: Keybindings,
    mods: ModifierState,
    tagged_alive: bool,
)
    requires
        state is Hidden || state is FadingOut,
    ensures
        key_action(vk, state, windows, tags, direct_switch, monitor_count, b, mods, tagged_alive) == KeyAction::NoAction,
        tags_after_key(vk, state, windows, tags, b, mods, tagged_alive) == tags,
{
}

/// Escape is the permanent way out: while the overlay takes input it always
/// dismisses, unless the user bound Confirm to Escape and that binding matches the
/// held modifiers (a bare binding always matches).
pub proof fn lemma_escape_always_dismisses(
    state: OverlayState,
    windows: Seq<WindowInfo>,
    tags: Map<u8, isize>,
    direct_switch: bool,
    monitor_count: usize,
    b: Keybindings,
    mods: ModifierState,
    tagged_alive: bool,
)
    requires
        !(state is Hidden || state is FadingOut),
        !(b.confirm_vk == VK_ESCAPE && binding_matches(held_flags(mods), b.confirm_modifiers)),
    ensures
        key_action(VK_ESCAPE, state, windows, tags, direct_switch, monitor_count, b, mods, tagged_alive)
            == KeyAction::Dismiss,
        tags_after_key(VK_ESCAPE, state, windows, tags, b, mods, tagged_alive) == tags,
{
}

/// Space always confirms the selection (in the grid or in label mode), unless the
/// user bound a modifier-qualified Dismiss to Space and is holding exactly those modifiers.
pub proof fn lemma_space_always_confirms(
    state: OverlayState,
    windows: Seq<WindowInfo>,
    tags: Map<u8, isize>,
    direct_switch: bool,
    monitor_count: usize,
    b: Keybindings,
    mods: ModifierState,
    tagged_alive: bool,
)
    requires
        !(state is Hidden || state is FadingOut),
        !(b.dismiss_modifiers != 0 && b.dismiss_vk == VK_SPACE && held_flags(mods) == b.dismiss_modifiers),
    ensures
        key_action(VK_SPACE, state, windows, tags, direct_switch, monitor_count, b, mods, tagged_alive)
            == confirm_action(state, windows),
{
}

/// With a bare (modifier-free) Confirm binding on a key that is neither a letter nor a
/// digit, that key confirms whatever modifiers are held (Ctrl+Enter still confirms),
/// unless a modifier-qualified Dismiss on the same key is matched first.
pub proof fn lemma_bare_confirm_ignores_modifiers(
    state: OverlayState,
    windows: Seq<WindowInfo>,
    tags: Map<u8, isize>,
    direct_switch: bool,
    monitor_count: usize,
    b: Keybindings,
    mods: ModifierState,
    tagged_alive: bool,
)
    requires
        !(state is Hidden || state is FadingOut),
        b.confirm_modifiers == 0,
        digit_of(b.confirm_vk) is None,
        letter_of(b.confirm_vk) is None,
        !(b.dismiss_modifiers != 0 && b.dismiss_vk == b.confirm_vk && held_flags(mods) == b.dismiss_modifiers),
    ensures
        key_action(b.confirm_vk, state, windows, tags, direct_switch, monitor_count, b, mods, tagged_alive)
            == confirm_action(state, windows),
{
}

/// Each held modifier lands on its own `MOD_*` flag and on no other: Ctrl on
/// `MOD_CONTROL` (0x2), Alt on `MOD_ALT` (0x1), Shift on `MOD_SHIFT` (0x4), Win on
/// `MOD_WIN` (0x8); no other bit is ever set, and nothing held gives 0.
pub proof fn lemma_held_flags_one_bit_per_modifier(mods: ModifierState)
    ensures
        (held_flags(mods) & 0x2u32 != 0) == mods.ctrl,
        (held_flags(mods) & 0x1u32 != 0) == mods.alt,
        (held_flags(mods) & 0x4u32 != 0) == mods.shift,
        (held_flags(mods) & 0x8u32 != 0) == mods.win,
        held_flags(mods) & !0xFu32 == 0,
        (held_flags(mods) == 0) == !(mods.ctrl || mods.alt || mods.shift || mods.win),
{
    let (c, a, s, w) = (mods.ctrl, mods.alt, mods.shift, mods.win);
    let h = held_flags(mods);
    assert(h == (if c { 2u32 } else { 0u32 }) | (if a { 1u32 } else { 0u32 }) | (if s { 4u32 } else { 0u32 }) | (
    if w { 8u32 } else { 0u32 }));
    assert((h & 0x2u32 != 0) == c && (h & 0x1u32 != 0) == a && (h & 0x4u32 != 0) == s && (h & 0x8u32 != 0) == w
        && h & !0xFu32 == 0 && (h == 0) == !(c || a || s || w)) by (bit_vector)
        requires
            h == (if c { 2u32 } else { 0u32 }) | (if a { 1u32 } else { 0u32 }) | (if s { 4u32 } else { 0u32 }) | (
            if w { 8u32 } else { 0u32 }),
    ;
}

/// The Dismiss twin of the bare Confirm law: a Dismiss binding recorded without
/// modifiers, on a key that is neither a letter, a digit, Space nor the Confirm key,
/// dismisses whatever modifiers are held, while the overlay takes input, and leaves
/// the tags alone.
pub proof fn lemma_bare_dismiss_ignores_modifiers(
    state: OverlayState,
    windows: Seq<WindowInfo>,
    tags: Map<u8, isize>,
    direct_switch: bool,
    monitor_count: usize,
    b: Keybindings,
    mods: ModifierState,
    tagged_alive: bool,
)
    requires
        !(state is Hidden || state is FadingOut),
        b.dismiss_modifiers == 0,
        digit_of(b.dismiss_vk) is None,
        letter_of(b.dismiss_vk) is None,
        b.dismiss_vk != VK_SPACE,
        b.dismiss_vk != b.confirm_vk,
    ensures
        key_action(b.dismiss_vk, state, windows, tags, direct_switch, monitor_count, b, mods, tagged_alive)
            == KeyAction::Dismiss,
        tags_after_key(b.dismiss_vk, state, windows, tags, b, mods, tagged_alive) == tags,
{
}

/// A modifier-qualified binding fires when exactly its modifiers are held, even on a
/// letter key: Confirm switches to the selection, Dismiss dismisses (Confirm wins when
/// both are bound to the same combination). Digit keys stay reserved for tags.
pub proof fn lemma_qualified_bindings_fire_with_their_modifiers(
    vk: u32,
    state: OverlayState,
    windows: Seq<WindowInfo>,
    tags: Map<u8, isize>,
    direct_switch: bool,
    monitor_count: usize,
    b: Keybindings,
    mods: ModifierState,
    tagged_alive: bool,
)
    requires
        !(state is Hidden || state is FadingOut),
        digit_of(vk) is None,
    ensures
        b.confirm_modifiers != 0 && vk == b.confirm_vk && held_flags(mods) == b.confirm_modifiers ==> key_action(
            vk,
            state,
            windows,
            tags,
            direct_switch,
            monitor_count,
            b,
            mods,
            tagged_alive,
        ) == confirm_action(state, windows),
        b.dismiss_modifiers != 0 && vk == b.dismiss_vk && held_flags(mods) == b.dismiss_modifiers && !(vk
            == b.confirm_vk && held_flags(mods) == b.confirm_modifiers) ==> key_action(
            vk,
            state,
            windows,
            tags,
            direct_switch,
            monitor_count,
            b,
            mods,
            tagged_alive,
        ) == KeyAction::Dismiss,
        tags_after_key(vk, state, windows, tags, b, mods, tagged_alive) == tags,
{
}

/// A Dismiss binding qualified by modifiers does nothing on its key while other
/// modifiers are held, when that key is not Escape, Space, a letter, a digit or the
/// Confirm key.
pub proof fn lemma_qualified_dismiss_needs_its_modifiers(
    state: OverlayState,
    windows: Seq<WindowInfo>,
    tags: Map<u8, isize>,
    direct_switch: bool,
    monitor_count: usize,
    b: Keybindings,
    mods: ModifierState,
    tagged_alive: bool,
)
    requires
        b.dismiss_modifiers != 0,
        held_flags(mods) != b.dismiss_modifiers,
        b.dismiss_vk != VK_ESCAPE,
        b.dismiss_vk != VK_SPACE,
        b.dismiss_vk != b.confirm_vk,
        digit_of(b.dismiss_vk) is None,
        letter_of(b.dismiss_vk) is None,
    ensures
        key_action(b.dismiss_vk, state, windows, tags, direct_switch, monitor_count, b, mods, tagged_alive)
            == KeyAction::NoAction,
{
}

/// With the move modifier held (and not the tag modifier), digit key `n` (key code
/// 0x30 + n, 1 <= n <= 9) moves the window selected in the grid to monitor `n`, that is
/// monitor index `n - 1`, when that monitor exists; it does nothing when the monitor
/// does not exist, when nothing valid is selected, or outside the grid. Tags stay.
pub proof fn lemma_move_modifier_digit_moves_to_monitor(
    n: u32,
    state: OverlayState,
    windows: Seq<WindowInfo>,
    tags: Map<u8, isize>,
    direct_switch: bool,
    monitor_count: usize,
    b: Keybindings,
    mods: ModifierState,
    tagged_alive: bool,
)
    requires
        1 <= n <= 9,
        !(state is Hidden || state is FadingOut),
        modifier_held(b.move_modifier, mods),
        !modifier_held(b.tag_modifier, mods),
    ensures
        ({
            let act = key_action((0x30 + n) as u32, state, windows, tags, direct_switch, monitor_count, b, mods, tagged_alive);
            match state {
                OverlayState::Active { selected: Some(idx) } => if idx < windows.len() && n <= monitor_count {
                    act == (KeyAction::MoveToMonitor { hwnd: windows[idx as int].hwnd, monitor_index: (n - 1) as usize })
                } else {
                    act == KeyAction::NoAction
                },
                _ => act == KeyAction::NoAction,
            }
        }),
        tags_after_key((0x30 + n) as u32, state, windows, tags, b, mods, tagged_alive) == tags,
{
}

/// The key code of a lowercase letter.
pub open spec fn letter_key(c: char) -> u32 {
    (VK_A + (c as int - 97)) as u32
}

/// Pressing the key of the letter that `assign_letters` gave window `i` picks that
/// window: it switches to it in label mode or with direct switch (when neither the tag
/// nor the move modifier is held), and selects it otherwise. The one exception is a
/// modifier-qualified Confirm or Dismiss binding on that letter whose modifiers are
/// exactly the ones held.
pub proof fn lemma_letter_key_picks_its_window(
    unlettered: Seq<WindowInfo>,
    windows: Seq<WindowInfo>,
    i: int,
    state: OverlayState,
    tags: Map<u8, isize>,
    direct_switch: bool,
    monitor_count: usize,
    b: Keybindings,
    mods: ModifierState,
    tagged_alive: bool,
)
    requires
        windows.len() == unlettered.len(),
        forall|j: int| 0 <= j < unlettered.len() ==> #[trigger] windows[j] == with_letter(unlettered[j], letter_for_index(j)),
        0 <= i < 26,
        i < windows.len(),
        !(state is Hidden || state is FadingOut),
        !(b.confirm_modifiers != 0 && letter_key(LETTER_SEQUENCE@[i]) == b.confirm_vk && held_flags(mods)
            == b.confirm_modifiers),
        !(b.dismiss_modifiers != 0 && letter_key(LETTER_SEQUENCE@[i]) == b.dismiss_vk && held_flags(mods)
            == b.dismiss_modifiers),
    ensures
        key_action(letter_key(LETTER_SEQUENCE@[i]), state, windows, tags, direct_switch, monitor_count, b, mods, tagged_alive)
            == (if (direct_switch && !(modifier_held(b.tag_modifier, mods) || modifier_held(b.move_modifier, mods)))
            || state is LabelMode {
            KeyAction::SwitchTo(windows[i].hwnd)
        } else {
            KeyAction::Select(i as usize)
        }),
        tags_after_key(letter_key(LETTER_SEQUENCE@[i]), state, windows, tags, b, mods, tagged_alive) == tags,
{
    let c = LETTER_SEQUENCE@[i];
    lemma_letter_sequence_distinct();
    assert('a' <= c <= 'z');
    let vk = letter_key(c);
    assert(VK_A <= vk <= VK_Z);
    assert(letter_of(vk) == Some(c));
    assert(digit_of(vk) is None);
    lemma_find_assigned_letter(windows, unlettered, i);
    lemma_first_with_letter(windows, c, i);
}

/// A tag works as a bookmark: with a window selected in the grid, the tag modifier
/// plus digit `n` (1-9) assigns tag `n` to it; afterwards digit `n` pressed without
/// the tag or move modifier, in any state that takes input and with any snapshot,
/// switches back to that window while it still exists.
pub proof fn lemma_tag_then_jump(
    vk: u32,
    idx: usize,
    windows: Seq<WindowInfo>,
    tags: Map<u8, isize>,
    direct_switch: bool,
    monitor_count: usize,
    b: Keybindings,
    assign_mods: ModifierState,
    alive_at_assign: bool,
    later_state: OverlayState,
    later_windows: Seq<WindowInfo>,
    later_direct_switch: bool,
    later_monitor_count: usize,
    jump_mods: ModifierState,
)
    requires
        digit_of(vk) is Some,
        idx < windows.len(),
        modifier_held(b.tag_modifier, assign_mods),
        !(later_state is Hidden || later_state is FadingOut),
        !modifier_held(b.tag_modifier, jump_mods),
        !modifier_held(b.move_modifier, jump_mods),
    ensures
        key_action(vk, OverlayState::Active { selected: Some(idx) }, windows, tags, direct_switch, monitor_count, b,
            assign_mods, alive_at_assign) == (KeyAction::TagAssigned { number: digit_of(vk)->0, hwnd: windows[idx as int].hwnd }),
        key_action(
            vk,
            later_state,
            later_windows,
            tags_after_key(vk, OverlayState::Active { selected: Some(idx) }, windows, tags, b, assign_mods, alive_at_assign),
            later_direct_switch,
            later_monitor_count,
            b,
            jump_mods,
            true,
        ) == KeyAction::SwitchTo(windows[idx as int].hwnd),
{
}

/// Jumping to a tag whose window no longer exists does nothing and forgets every tag
/// of that window, so the dead window is never offered again; other tags stay.
pub proof fn lemma_dead_tag_is_dropped(
    vk: u32,
    state: OverlayState,
    windows: Seq<WindowInfo>,
    tags: Map<u8, isize>,
    direct_switch: bool,
    monitor_count: usize,
    b: Keybindings,
    mods: ModifierState,
)
    requires
        !(state is Hidden || state is FadingOut),
        digit_of(vk) is Some,
        tags.contains_key(digit_of(vk)->0),
        !modifier_held(b.tag_modifier, mods),
        !modifier_held(b.move_modifier, mods),
    ensures
        key_action(vk, state, windows, tags, direct_switch, monitor_count, b, mods, false) == KeyAction::NoAction,
        ({
            let after = tags_after_key(vk, state, windows, tags, b, mods, false);
            let dead = tags[digit_of(vk)->0];
            &&& forall|n: u8| #[trigger] after.contains_key(n) ==> after[n] != dead
            &&& forall|n: u8| tags.contains_key(n) && tags[n] != dead ==> #[trigger] after.contains_key(n) && after[n] == tags[n]
        }),
{
}

proof fn lemma_first_with_letter(windows: Seq<WindowInfo>, letter: char, i: int)
    requires
        0 <= i < windows.len(),
        windows[i].letter == Some(letter),
        forall|j: int| 0 <= j < i ==> #[trigger] windows[j].letter != Some(letter),
    ensures
        has_letter(windows, letter),
        first_with_letter(windows, letter) == i,
{
    let k = first_with_letter(windows, letter);
    assert(0 <= k < windows.len() && windows[k].letter == Some(letter)
        && forall|j: int| 0 <= j < k ==> #[trigger] windows[j].letter != Some(letter));
    if k < i {
        assert(windows[k].letter != Some(letter));
    } else if k > i {
        assert(windows[i].letter != Some(letter));
    }
}

/// Decide what a key press does while the overlay is up, given the held modifiers.
///
/// `tagged_window_exists` is the caller's answer for the window named by
/// `tag_jump_target` (ignored when there is none).
pub fn handle_key_down_with_modifiers(
    vk_code: u32,
    state: &OverlayState,
    windows: &[WindowInfo],
    tags: &mut SessionTags,
    direct_switch: bool,
    monitor_count: usize,
    bindings: &Keybindings,
    mods: ModifierState,
    tagged_window_exists: bool,
) -> (r: KeyAction)
    ensures
        r == key_action(vk_code, *state, windows@, old(tags)@, direct_switch, monitor_count, *bindings, mods,
            tagged_window_exists),
        final(tags)@ == tags_after_key(vk_code, *state, windows@, old(tags)@, *bindings, mods, tagged_window_exists),
{
    match state {
        OverlayState::FadingOut { .. } => {
            return KeyAction::NoAction;
        },
        OverlayState::Hidden => {
            return KeyAction::NoAction;
        },
        _ => {},
    }

    // Digit keys 1-9: tag assignment, move to monitor, or jump to a tagged window.
    match vk_to_digit(vk_code) {
        Some(num) => {
            if modifier_matches(bindings.tag_modifier, &mods) {
                match state {
                    OverlayState::Active { selected: Some(idx) } => {
                        if *idx < windows.len() {
                            let hwnd = windows[*idx].hwnd;
                            tags.assign(num, hwnd);
                            return KeyAction::TagAssigned { number: num, hwnd };
                        }
                    },
                    _ => {},
                }
            } else if modifier_matches(bindings.move_modifier, &mods) {
                match state {
                    OverlayState::Active { selected: Some(idx) } => {
                        let monitor_index = (num - 1) as usize;
                        if monitor_index < monitor_count && *idx < windows.len() {
                            return KeyAction::MoveToMonitor { hwnd: windows[*idx].hwnd, monitor_index };
                        }
                    },
                    _ => {},
                }
            } else {
                match tags.get(num) {
                    Some(tagged_hwnd) => {
                        if tagged_window_exists {
                            return KeyAction::SwitchTo(tagged_hwnd);
                        } else {
                            tags.remove_by_hwnd(tagged_hwnd);
                        }
                    },
                    None => {},
                }
            }
            return KeyAction::NoAction;
        },
        None => {},
    }

    let held_mods = held_mod_flags(&mods);

    // Modifier-qualified confirm/dismiss bindings come before the letter branch, which
    // returns for every letter.
    if bindings.confirm_modifiers != 0 && vk_code == bindings.confirm_vk && held_mods == bindings.confirm_modifiers {
        return confirm_selected(state, windows);
    }
    if bindings.dismiss_modifiers != 0 && vk_code == bindings.dismiss_vk && held_mods == bindings.dismiss_modifiers {
        return KeyAction::Dismiss;
    }

    // Letter keys select (or switch to) a window; holding the tag or move modifier
    // always selects, so it can be combined with a digit afterwards.
    match vk_to_letter(vk_code) {
        Some(letter) => {
            match find_by_letter(windows, letter) {
                Some(idx) => {
                    proof { lemma_first_with_letter(windows@, letter, idx as int); }
                    let suppress_direct_switch = modifier_matches(bindings.tag_modifier, &mods)
                        || modifier_matches(bindings.move_modifier, &mods);
                    if direct_switch && !suppress_direct_switch {
                        return KeyAction::SwitchTo(windows[idx].hwnd);
                    }
                    match state {
                        OverlayState::LabelMode { .. } => {
                            return KeyAction::SwitchTo(windows[idx].hwnd);
                        },
                        _ => {},
                    }
                    return KeyAction::Select(idx);
                },
                None => {
                    return KeyAction::NoAction;
                },
            }
        },
        None => {},
    }

    // Space always confirms; otherwise the configured confirm combination does.
    if vk_code == VK_SPACE || (vk_code == bindings.confirm_vk && binding_modifiers_match(
        held_mods,
        bindings.confirm_modifiers,
    )) {
        return confirm_selected(state, windows);
    }

    // Escape always dismisses.
    if vk_code == VK_ESCAPE {
        return KeyAction::Dismiss;
    }

    // Configured dismiss combination.
    if vk_code == bindings.dismiss_vk && binding_modifiers_match(held_mods, bindings.dismiss_modifiers) {
        return KeyAction::Dismiss;
    }

    KeyAction::NoAction
}

fn confirm_selected(state: &OverlayState, windows: &[WindowInfo]) -> (r: KeyAction)
    ensures
        r == confirm_action(*state, windows@),
{
    match state {
        OverlayState::Active { selected: Some(idx) } | OverlayState::LabelMode { selected: Some(idx) } => {
            if *idx < windows.len() {
                KeyAction::SwitchTo(windows[*idx].hwnd)
            } else {
                KeyAction::NoAction
            }
        },
        _ => KeyAction::NoAction,
    }
}

} // verus!
