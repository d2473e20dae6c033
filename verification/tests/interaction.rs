use window_selector::config::ActionModifier;
use window_selector::interaction::{
    handle_focus_lost, handle_hotkey_event, handle_key_down_with_modifiers, tag_jump_target, vk_to_digit,
    vk_to_letter, HotkeyAction, KeyAction, Keybindings, ModifierState,
};
use window_selector::keycodes::{
    MOD_ALT, MOD_CONTROL, VK_0, VK_1, VK_2, VK_3, VK_5, VK_A, VK_BACK, VK_ESCAPE, VK_J, VK_K, VK_RETURN, VK_SPACE,
    VK_TAB, VK_Z,
};
use window_selector::letter_assignment::{assign_letters, LETTER_SEQUENCE};
use window_selector::state::{OverlayState, SessionTags};
use window_selector::window_info::WindowInfo;

fn hwnd(n: isize) -> isize {
    n
}

fn make_window_info(hwnd_n: isize, letter: char) -> WindowInfo {
    let mut w = WindowInfo::new(hwnd(hwnd_n), format!("Window {}", hwnd_n), false, 0);
    w.letter = Some(letter);
    w
}

fn active_state(sel: Option<usize>) -> OverlayState {
    OverlayState::Active { selected: sel }
}

const DEFAULT_MONITOR_COUNT: usize = 9;

/// Stand-in for the OS window check: every tagged window in these tests still exists.
const TAGGED_WINDOWS_EXIST: bool = true;

fn handle_key_down_test(
    vk_code: u32,
    state: &OverlayState,
    windows: &[WindowInfo],
    tags: &mut SessionTags,
    direct_switch: bool,
    ctrl_held: bool,
) -> KeyAction {
    handle_key_down_test_full(vk_code, state, windows, tags, direct_switch, ctrl_held, false, DEFAULT_MONITOR_COUNT)
}

#[allow(clippy::too_many_arguments)]
fn handle_key_down_test_full(
    vk_code: u32,
    state: &OverlayState,
    windows: &[WindowInfo],
    tags: &mut SessionTags,
    direct_switch: bool,
    ctrl_held: bool,
    shift_held: bool,
    monitor_count: usize,
) -> KeyAction {
    handle_key_down_test_bindings(
        vk_code,
        state,
        windows,
        tags,
        direct_switch,
        monitor_count,
        &Keybindings::default(),
        ModifierState { ctrl: ctrl_held, alt: false, shift: shift_held, win: false },
    )
}

#[allow(clippy::too_many_arguments)]
fn handle_key_down_test_bindings(
    vk_code: u32,
    state: &OverlayState,
    windows: &[WindowInfo],
    tags: &mut SessionTags,
    direct_switch: bool,
    monitor_count: usize,
    bindings: &Keybindings,
    mods: ModifierState,
) -> KeyAction {
    handle_key_down_with_modifiers(
        vk_code,
        state,
        windows,
        tags,
        direct_switch,
        monitor_count,
        bindings,
        mods,
        TAGGED_WINDOWS_EXIST,
    )
}

#[test]
fn test_letter_key_selects_window() {
    let windows = vec![make_window_info(1, 'a'), make_window_info(2, 's')];
    let mut tags = SessionTags::new();
    let state = active_state(None);
    let action = handle_key_down_test(VK_A, &state, &windows, &mut tags, false, false);
    assert!(matches!(action, KeyAction::Select(0)));
}

#[test]
fn test_escape_dismisses() {
    let windows: Vec<WindowInfo> = vec![];
    let mut tags = SessionTags::new();
    let state = active_state(None);
    let action = handle_key_down_test(VK_ESCAPE, &state, &windows, &mut tags, false, false);
    assert!(matches!(action, KeyAction::Dismiss));
}

#[test]
fn test_enter_with_no_selection_is_noop() {
    let windows = vec![make_window_info(1, 'a')];
    let mut tags = SessionTags::new();
    let state = active_state(None);
    let action = handle_key_down_test(VK_RETURN, &state, &windows, &mut tags, false, false);
    assert!(matches!(action, KeyAction::NoAction));
}

#[test]
fn test_enter_with_selection_switches() {
    let h = hwnd(42);
    let mut w = WindowInfo::new(h, "Test".into(), false, 0);
    w.letter = Some('a');
    let windows = vec![w];
    let mut tags = SessionTags::new();
    let state = active_state(Some(0));
    let action = handle_key_down_test(VK_RETURN, &state, &windows, &mut tags, false, false);
    assert!(matches!(action, KeyAction::SwitchTo(_)));
}

#[test]
fn test_fading_out_ignores_input() {
    let windows: Vec<WindowInfo> = vec![];
    let mut tags = SessionTags::new();
    let state = OverlayState::FadingOut { switch_target: None };
    let action = handle_key_down_test(VK_ESCAPE, &state, &windows, &mut tags, false, false);
    assert!(matches!(action, KeyAction::NoAction));
}

#[test]
fn test_vk_to_letter_range() {
    for (offset, expected) in ('a'..='z').enumerate() {
        let vk = VK_A + offset as u32;
        assert_eq!(vk_to_letter(vk), Some(expected));
    }
}

#[test]
fn test_vk_to_digit_range() {
    assert_eq!(vk_to_digit(VK_1), Some(1));
    assert_eq!(vk_to_digit(0x39), Some(9));
    assert_eq!(vk_to_digit(VK_0), None);
}

#[test]
fn test_space_key_confirms_switch() {
    let h = hwnd(42);
    let mut w = WindowInfo::new(h, "Test".into(), false, 0);
    w.letter = Some('a');
    let windows = vec![w];
    let mut tags = SessionTags::new();
    let state = active_state(Some(0));
    let action = handle_key_down_test(VK_SPACE, &state, &windows, &mut tags, false, false);
    assert!(
        matches!(action, KeyAction::SwitchTo(_)),
        "Space key with selection should trigger SwitchTo, got {:?}",
        action
    );
}

#[test]
fn test_unassigned_letter_is_noop() {
    let windows = vec![make_window_info(1, 'a')];
    let mut tags = SessionTags::new();
    let state = active_state(None);
    let action = handle_key_down_test(VK_Z, &state, &windows, &mut tags, false, false);
    assert!(
        matches!(action, KeyAction::NoAction),
        "Unassigned letter should produce None, got {:?}",
        action
    );
}

#[test]
fn test_hotkey_event_in_active_state_dismisses() {
    let state = active_state(None);
    let action = handle_hotkey_event(&state);
    assert_eq!(action, HotkeyAction::Dismiss, "WM_HOTKEY in Active state should produce Dismiss");
}

#[test]
fn test_hotkey_event_in_fading_in_dismisses() {
    let state = OverlayState::FadingIn;
    let action = handle_hotkey_event(&state);
    assert_eq!(action, HotkeyAction::Dismiss, "WM_HOTKEY in FadingIn state should produce Dismiss");
}

#[test]
fn test_focus_lost_in_active_state_triggers_dismiss() {
    let state = active_state(None);
    assert!(handle_focus_lost(&state), "Focus lost in Active state should trigger dismiss");
}

#[test]
fn test_focus_lost_in_fading_in_triggers_dismiss() {
    let state = OverlayState::FadingIn;
    assert!(handle_focus_lost(&state), "Focus lost in FadingIn state should trigger dismiss");
}

#[test]
fn test_focus_lost_in_hidden_does_not_dismiss() {
    let state = OverlayState::Hidden;
    assert!(!handle_focus_lost(&state), "Focus lost in Hidden state should not trigger dismiss");
}

#[test]
fn test_ctrl_number_assigns_tag() {
    let h = hwnd(55);
    let mut w = WindowInfo::new(h, "Tagged Window".into(), false, 0);
    w.letter = Some('a');
    let windows = vec![make_window_info(10, 'b'), make_window_info(11, 'c'), w];
    let mut tags = SessionTags::new();
    let state = active_state(Some(2));

    let action = handle_key_down_test(VK_1, &state, &windows, &mut tags, false, true);
    assert!(matches!(action, KeyAction::TagAssigned { number: 1, hwnd } if hwnd == h));
    assert_eq!(tags.get(1), Some(h), "Tag 1 should point to the selected window's HWND");

    let action_no_ctrl = handle_key_down_test(VK_1, &state, &windows, &mut SessionTags::new(), false, false);
    assert!(
        matches!(action_no_ctrl, KeyAction::NoAction),
        "Number key with no tag assigned should produce None, got {:?}",
        action_no_ctrl
    );
}

#[test]
fn test_ctrl_number_no_selection_is_noop() {
    let windows = vec![make_window_info(1, 'a')];
    let mut tags = SessionTags::new();
    let state = active_state(None);
    let action = handle_key_down_test(VK_1, &state, &windows, &mut tags, false, true);
    assert!(
        matches!(action, KeyAction::NoAction),
        "Ctrl+Number with no selection should be None, got {:?}",
        action
    );
    assert_eq!(tags.all_tags().len(), 0, "No tags should have been assigned");
}

#[test]
fn test_number_key_switches_to_tagged_window() {
    // A window that still exists (the OS check answers "exists" in this test).
    let valid_hwnd = hwnd(0x10010);
    let mut tags = SessionTags::new();
    tags.assign(1, valid_hwnd);
    let windows: Vec<WindowInfo> = vec![];
    let state = active_state(None);
    let action = handle_key_down_test(VK_1, &state, &windows, &mut tags, false, false);
    assert!(
        matches!(action, KeyAction::SwitchTo(_)),
        "Number key with valid tag should produce SwitchTo, got {:?}",
        action
    );
}

#[test]
fn test_unassigned_number_key_is_noop() {
    let mut tags = SessionTags::new();
    let windows: Vec<WindowInfo> = vec![];
    let state = active_state(None);
    let action = handle_key_down_test(VK_5, &state, &windows, &mut tags, false, false);
    assert!(
        matches!(action, KeyAction::NoAction),
        "Unassigned number key should produce None, got {:?}",
        action
    );
}

#[test]
fn test_direct_switch_letter_switches_immediately() {
    let h = hwnd(42);
    let mut w = WindowInfo::new(h, "Test".into(), false, 0);
    w.letter = Some('a');
    let windows = vec![w];
    let mut tags = SessionTags::new();
    let state = active_state(None);
    let action = handle_key_down_test(VK_A, &state, &windows, &mut tags, true, false);
    assert!(
        matches!(action, KeyAction::SwitchTo(_)),
        "Direct switch: letter key should produce SwitchTo, got {:?}",
        action
    );
}

#[test]
fn test_confirm_mode_letter_selects() {
    let windows = vec![make_window_info(1, 'a')];
    let mut tags = SessionTags::new();
    let state = active_state(None);
    let action = handle_key_down_test(VK_A, &state, &windows, &mut tags, false, false);
    assert!(
        matches!(action, KeyAction::Select(0)),
        "Confirm mode: letter key should produce Select, got {:?}",
        action
    );
}

#[test]
fn test_shift_number_with_selection_yields_move_to_monitor() {
    let h = hwnd(77);
    let mut w = WindowInfo::new(h, "Movable".into(), false, 0);
    w.letter = Some('a');
    let windows = vec![w];
    let mut tags = SessionTags::new();
    let state = active_state(Some(0));

    let action = handle_key_down_test_full(VK_3, &state, &windows, &mut tags, false, false, true, 3);
    assert!(
        matches!(action, KeyAction::MoveToMonitor { hwnd: target, monitor_index: 2 } if target == h),
        "Shift+3 with a selection should produce MoveToMonitor{{monitor_index: 2}}, got {:?}",
        action
    );
}

#[test]
fn test_shift_number_out_of_range_monitor_count_is_noop() {
    let h = hwnd(77);
    let mut w = WindowInfo::new(h, "Movable".into(), false, 0);
    w.letter = Some('a');
    let windows = vec![w];
    let mut tags = SessionTags::new();
    let state = active_state(Some(0));

    let action = handle_key_down_test_full(VK_3, &state, &windows, &mut tags, false, false, true, 2);
    assert!(
        matches!(action, KeyAction::NoAction),
        "Shift+3 with monitor_count == 2 should produce None, got {:?}",
        action
    );
}

#[test]
fn test_shift_number_with_no_selection_is_noop() {
    let windows: Vec<WindowInfo> = vec![];
    let mut tags = SessionTags::new();
    let state = active_state(None);

    let action = handle_key_down_test_full(VK_1, &state, &windows, &mut tags, false, false, true, 9);
    assert!(
        matches!(action, KeyAction::NoAction),
        "Shift+1 with no selection should produce None, got {:?}",
        action
    );
}

#[test]
fn test_shift_number_in_label_mode_is_noop() {
    let windows: Vec<WindowInfo> = vec![make_window_info(1, 'a')];
    let mut tags = SessionTags::new();
    let state = OverlayState::LabelMode { selected: Some(0) };

    let action = handle_key_down_test_full(VK_1, &state, &windows, &mut tags, false, false, true, 9);
    assert!(
        matches!(action, KeyAction::NoAction),
        "Shift+1 in LabelMode should produce None, got {:?}",
        action
    );
}

#[test]
fn test_shift_letter_selects_instead_of_switching_when_direct_switch() {
    let h = hwnd(42);
    let mut w = WindowInfo::new(h, "Test".into(), false, 0);
    w.letter = Some('a');
    let windows = vec![w];
    let mut tags = SessionTags::new();
    let state = active_state(None);

    let action = handle_key_down_test_full(VK_A, &state, &windows, &mut tags, true, false, true, 9);
    assert!(
        matches!(action, KeyAction::Select(0)),
        "Shift+Letter under direct_switch should produce Select, got {:?}",
        action
    );
}

#[test]
fn test_plain_letter_still_switches_when_direct_switch() {
    let h = hwnd(42);
    let mut w = WindowInfo::new(h, "Test".into(), false, 0);
    w.letter = Some('a');
    let windows = vec![w];
    let mut tags = SessionTags::new();
    let state = active_state(None);

    let action = handle_key_down_test_full(VK_A, &state, &windows, &mut tags, true, false, false, 9);
    assert!(
        matches!(action, KeyAction::SwitchTo(_)),
        "Plain letter under direct_switch should still produce SwitchTo, got {:?}",
        action
    );
}

fn selected_window(hwnd_val: isize, letter: char) -> WindowInfo {
    let mut w = WindowInfo::new(hwnd(hwnd_val), "Test".into(), false, 0);
    w.letter = Some(letter);
    w
}

#[test]
fn test_custom_confirm_key_confirms() {
    let h = hwnd(42);
    let windows = vec![selected_window(42, 'a')];
    let mut tags = SessionTags::new();
    let state = active_state(Some(0));
    let bindings = Keybindings { confirm_vk: VK_TAB, ..Keybindings::default() };
    let action = handle_key_down_test_bindings(
        VK_TAB,
        &state,
        &windows,
        &mut tags,
        false,
        9,
        &bindings,
        ModifierState::default(),
    );
    assert!(
        matches!(action, KeyAction::SwitchTo(target) if target == h),
        "Custom confirm key (Tab) should confirm, got {:?}",
        action
    );
}

#[test]
fn test_ctrl_enter_still_confirms_with_default_binding() {
    let h = hwnd(42);
    let windows = vec![selected_window(42, 'a')];
    let mut tags = SessionTags::new();
    let state = active_state(Some(0));
    let action = handle_key_down_test_bindings(
        VK_RETURN,
        &state,
        &windows,
        &mut tags,
        false,
        9,
        &Keybindings::default(),
        ModifierState { ctrl: true, ..Default::default() },
    );
    assert!(
        matches!(action, KeyAction::SwitchTo(target) if target == h),
        "Ctrl+Enter should still confirm with the default bare-Enter binding, got {:?}",
        action
    );
}

#[test]
fn test_modifier_qualified_confirm_requires_exact_match() {
    let windows = vec![selected_window(42, 'j')];
    let mut tags = SessionTags::new();
    let state = active_state(Some(0));
    let bindings = Keybindings { confirm_vk: VK_J, confirm_modifiers: MOD_CONTROL, ..Keybindings::default() };
    let action = handle_key_down_test_bindings(
        VK_J,
        &state,
        &windows,
        &mut tags,
        false,
        9,
        &bindings,
        ModifierState::default(),
    );
    assert!(
        matches!(action, KeyAction::Select(0)),
        "Bare J must select its window, not fire a Ctrl+J confirm binding, got {:?}",
        action
    );
}

#[test]
fn test_modifier_qualified_letter_confirm_fires() {
    let h = hwnd(42);
    let windows = vec![selected_window(42, 'j')];
    let mut tags = SessionTags::new();
    let state = active_state(Some(0));
    let bindings = Keybindings { confirm_vk: VK_J, confirm_modifiers: MOD_CONTROL, ..Keybindings::default() };
    let action = handle_key_down_test_bindings(
        VK_J,
        &state,
        &windows,
        &mut tags,
        false,
        9,
        &bindings,
        ModifierState { ctrl: true, ..Default::default() },
    );
    assert!(
        matches!(action, KeyAction::SwitchTo(target) if target == h),
        "Ctrl+J confirm binding must fire even though 'j' is an assigned window letter, got {:?}",
        action
    );
}

#[test]
fn test_modifier_qualified_letter_dismiss_fires() {
    let windows = vec![selected_window(42, 'k')];
    let mut tags = SessionTags::new();
    let state = active_state(Some(0));
    let bindings = Keybindings { dismiss_vk: VK_K, dismiss_modifiers: MOD_ALT, ..Keybindings::default() };
    let action = handle_key_down_test_bindings(
        VK_K,
        &state,
        &windows,
        &mut tags,
        false,
        9,
        &bindings,
        ModifierState { alt: true, ..Default::default() },
    );
    assert!(
        matches!(action, KeyAction::Dismiss),
        "Alt+K dismiss binding must fire even though 'k' is an assigned window letter, got {:?}",
        action
    );
}

#[test]
fn test_space_still_confirms_after_confirm_rebound() {
    let h = hwnd(42);
    let windows = vec![selected_window(42, 'a')];
    let mut tags = SessionTags::new();
    let state = active_state(Some(0));
    let bindings = Keybindings { confirm_vk: VK_TAB, ..Keybindings::default() };
    let action = handle_key_down_test_bindings(
        VK_SPACE,
        &state,
        &windows,
        &mut tags,
        false,
        9,
        &bindings,
        ModifierState::default(),
    );
    assert!(
        matches!(action, KeyAction::SwitchTo(target) if target == h),
        "Space must remain a permanent confirm even after rebinding Confirm, got {:?}",
        action
    );
}

#[test]
fn test_custom_dismiss_key_dismisses() {
    let windows: Vec<WindowInfo> = vec![];
    let mut tags = SessionTags::new();
    let state = active_state(None);
    let bindings = Keybindings { dismiss_vk: VK_BACK, ..Keybindings::default() };
    let action = handle_key_down_test_bindings(
        VK_BACK,
        &state,
        &windows,
        &mut tags,
        false,
        9,
        &bindings,
        ModifierState::default(),
    );
    assert!(
        matches!(action, KeyAction::Dismiss),
        "Custom dismiss key (Backspace) should dismiss, got {:?}",
        action
    );
}

#[test]
fn test_escape_still_dismisses_after_dismiss_rebound() {
    let windows: Vec<WindowInfo> = vec![];
    let mut tags = SessionTags::new();
    let state = active_state(None);
    let bindings = Keybindings { dismiss_vk: VK_BACK, ..Keybindings::default() };
    let action = handle_key_down_test_bindings(
        VK_ESCAPE,
        &state,
        &windows,
        &mut tags,
        false,
        9,
        &bindings,
        ModifierState::default(),
    );
    assert!(
        matches!(action, KeyAction::Dismiss),
        "Escape must remain a permanent dismiss even after rebinding Dismiss, got {:?}",
        action
    );
}

#[test]
fn test_alt_digit_assigns_tag_when_tag_modifier_is_alt() {
    let h = hwnd(9);
    let windows = vec![selected_window(9, 'a')];
    let mut tags = SessionTags::new();
    let state = active_state(Some(0));
    let bindings = Keybindings {
        tag_modifier: ActionModifier::Alt,
        move_modifier: ActionModifier::Ctrl,
        ..Keybindings::default()
    };
    let action = handle_key_down_test_bindings(
        VK_3,
        &state,
        &windows,
        &mut tags,
        false,
        9,
        &bindings,
        ModifierState { alt: true, ..Default::default() },
    );
    assert!(
        matches!(action, KeyAction::TagAssigned { number: 3, hwnd: target } if target == h),
        "Alt+3 should assign tag 3 when tag_modifier is Alt, got {:?}",
        action
    );
}

#[test]
fn test_ctrl_digit_inert_when_tag_modifier_is_alt() {
    let windows = vec![selected_window(9, 'a')];
    let mut tags = SessionTags::new();
    let state = active_state(Some(0));
    let bindings = Keybindings {
        tag_modifier: ActionModifier::Alt,
        move_modifier: ActionModifier::Shift,
        ..Keybindings::default()
    };
    let action = handle_key_down_test_bindings(
        VK_3,
        &state,
        &windows,
        &mut tags,
        false,
        9,
        &bindings,
        ModifierState { ctrl: true, ..Default::default() },
    );
    assert!(tags.get(3).is_none(), "Ctrl+3 must not assign a tag once tag_modifier has moved to Alt");
    assert!(
        matches!(action, KeyAction::NoAction),
        "Ctrl+3 with tag_modifier=Alt should be a no-op (no tag jump was set up), got {:?}",
        action
    );
}

#[test]
fn test_move_to_monitor_honours_rebound_modifier() {
    let h = hwnd(77);
    let windows = vec![selected_window(77, 'a')];
    let mut tags = SessionTags::new();
    let state = active_state(Some(0));
    let bindings = Keybindings {
        tag_modifier: ActionModifier::Ctrl,
        move_modifier: ActionModifier::Alt,
        ..Keybindings::default()
    };
    let action = handle_key_down_test_bindings(
        VK_2,
        &state,
        &windows,
        &mut tags,
        false,
        9,
        &bindings,
        ModifierState { alt: true, ..Default::default() },
    );
    assert!(
        matches!(action, KeyAction::MoveToMonitor { hwnd: target, monitor_index: 1 } if target == h),
        "Alt+2 should move to monitor 1 once move_modifier is rebound to Alt, got {:?}",
        action
    );

    let action_shift = handle_key_down_test_bindings(
        VK_2,
        &state,
        &windows,
        &mut tags,
        false,
        9,
        &bindings,
        ModifierState { shift: true, ..Default::default() },
    );
    assert!(
        matches!(action_shift, KeyAction::NoAction),
        "Shift+2 should no longer move once move_modifier is rebound away from Shift, got {:?}",
        action_shift
    );
}

// --- additional cases ---

#[test]
fn stale_tag_is_dropped_instead_of_switching() {
    let mut tags = SessionTags::new();
    tags.assign(1, 500);
    tags.assign(4, 500);
    tags.assign(2, 600);
    let state = active_state(None);
    let windows: Vec<WindowInfo> = vec![];
    let bindings = Keybindings::default();
    let mods = ModifierState::default();
    assert_eq!(tag_jump_target(VK_1, &state, &tags, &bindings, mods), Some(500));
    let action =
        handle_key_down_with_modifiers(VK_1, &state, &windows, &mut tags, false, 9, &bindings, mods, false);
    assert_eq!(action, KeyAction::NoAction);
    assert_eq!(tags.get(1), None);
    assert_eq!(tags.get(4), None);
    assert_eq!(tags.get(2), Some(600));
}

#[test]
fn tag_jump_target_only_for_plain_digits() {
    let mut tags = SessionTags::new();
    tags.assign(1, 500);
    let bindings = Keybindings::default();
    let state = active_state(None);
    assert_eq!(tag_jump_target(VK_1, &state, &tags, &bindings, ModifierState { ctrl: true, ..Default::default() }), None);
    assert_eq!(tag_jump_target(VK_A, &state, &tags, &bindings, ModifierState::default()), None);
    assert_eq!(tag_jump_target(VK_1, &OverlayState::Hidden, &tags, &bindings, ModifierState::default()), None);
}

#[test]
fn label_mode_letter_switches_directly() {
    let windows = vec![make_window_info(5, 'a'), make_window_info(6, 's')];
    let mut tags = SessionTags::new();
    let state = OverlayState::LabelMode { selected: None };
    let action = handle_key_down_test(0x53, &state, &windows, &mut tags, false, false);
    assert_eq!(action, KeyAction::SwitchTo(6));
}

#[test]
fn hidden_state_ignores_every_key() {
    let windows = vec![make_window_info(5, 'a')];
    let mut tags = SessionTags::new();
    for vk in [VK_A, VK_1, VK_ESCAPE, VK_SPACE, VK_RETURN] {
        let action = handle_key_down_test(vk, &OverlayState::Hidden, &windows, &mut tags, true, true);
        assert_eq!(action, KeyAction::NoAction);
    }
    assert!(tags.all_tags().is_empty());
}

#[test]
fn hotkey_event_in_other_states() {
    assert_eq!(handle_hotkey_event(&OverlayState::Hidden), HotkeyAction::Activate);
    assert_eq!(handle_hotkey_event(&OverlayState::FadingOut { switch_target: None }), HotkeyAction::NoAction);
    assert_eq!(handle_hotkey_event(&OverlayState::LabelMode { selected: None }), HotkeyAction::NoAction);
    assert!(handle_focus_lost(&OverlayState::LabelMode { selected: Some(1) }));
    assert!(!handle_focus_lost(&OverlayState::FadingOut { switch_target: Some(3) }));
}

#[test]
fn confirm_bound_to_escape_takes_precedence() {
    let windows = vec![selected_window(42, 'a')];
    let mut tags = SessionTags::new();
    let state = active_state(Some(0));
    let bindings = Keybindings { confirm_vk: VK_ESCAPE, ..Keybindings::default() };
    let action = handle_key_down_test_bindings(
        VK_ESCAPE,
        &state,
        &windows,
        &mut tags,
        false,
        9,
        &bindings,
        ModifierState::default(),
    );
    assert_eq!(action, KeyAction::SwitchTo(42));
}

#[test]
fn tag_assigned_then_digit_jumps_back() {
    let windows = vec![make_window_info(10, 'a'), make_window_info(20, 's')];
    let mut tags = SessionTags::new();
    let assign = handle_key_down_test(VK_3, &active_state(Some(1)), &windows, &mut tags, false, true);
    assert_eq!(assign, KeyAction::TagAssigned { number: 3, hwnd: 20 });
    // later, in a new snapshot and even in label mode, plain 3 jumps to the tagged window
    let later = vec![make_window_info(30, 'a')];
    let jump = handle_key_down_test(VK_3, &OverlayState::LabelMode { selected: None }, &later, &mut tags, false, false);
    assert_eq!(jump, KeyAction::SwitchTo(20));
}

#[test]
fn every_assigned_letter_key_selects_its_window() {
    let mut windows: Vec<WindowInfo> = (0..30).map(|i| WindowInfo::new(100 + i, format!("w{}", i), false, 0)).collect();
    assign_letters(&mut windows);
    let mut tags = SessionTags::new();
    for (i, c) in LETTER_SEQUENCE.iter().enumerate() {
        let vk = VK_A + (*c as u32 - 'a' as u32);
        assert_eq!(handle_key_down_test(vk, &active_state(None), &windows, &mut tags, false, false), KeyAction::Select(i));
        assert_eq!(
            handle_key_down_test(vk, &active_state(None), &windows, &mut tags, true, false),
            KeyAction::SwitchTo(100 + i as isize)
        );
    }
}
