use window_selector::session::{complete_fade, should_update_shift_badges, state_after_selection};
use window_selector::state::OverlayState;

#[test]
fn shift_down_while_active_updates_when_flag_was_false() {
    let state = OverlayState::Active { selected: None };
    assert!(should_update_shift_badges(&state, false, true));
}

#[test]
fn shift_up_while_active_updates_when_flag_was_true() {
    let state = OverlayState::Active { selected: Some(2) };
    assert!(should_update_shift_badges(&state, true, false));
}

#[test]
fn repeated_shift_down_while_active_is_a_noop() {
    // Auto-repeat keydowns report shift_down: true on every tick while Shift is held.
    let state = OverlayState::Active { selected: None };
    assert!(!should_update_shift_badges(&state, true, true));
}

#[test]
fn repeated_shift_up_while_active_is_a_noop() {
    let state = OverlayState::Active { selected: None };
    assert!(!should_update_shift_badges(&state, false, false));
}

#[test]
fn shift_transition_outside_active_state_is_ignored() {
    // Badges only ever apply to the Active grid overlay.
    assert!(!should_update_shift_badges(&OverlayState::LabelMode { selected: None }, false, true));
    assert!(!should_update_shift_badges(&OverlayState::Hidden, false, true));
    assert!(!should_update_shift_badges(&OverlayState::FadingIn, false, true));
    assert!(!should_update_shift_badges(&OverlayState::FadingOut { switch_target: None }, false, true));
}

#[test]
fn selection_keeps_label_mode_and_activates_otherwise() {
    assert_eq!(
        state_after_selection(&OverlayState::LabelMode { selected: None }, 4),
        OverlayState::LabelMode { selected: Some(4) }
    );
    assert_eq!(
        state_after_selection(&OverlayState::Active { selected: Some(1) }, 2),
        OverlayState::Active { selected: Some(2) }
    );
}

#[test]
fn finished_fade_in_becomes_active_and_renders() {
    let c = complete_fade(&OverlayState::FadingIn, Some(7));
    assert_eq!(c.next_state, OverlayState::Active { selected: None });
    assert_eq!(c.previous_foreground, Some(7));
    assert!(c.render);
    assert!(!c.hide);
    assert_eq!(c.switch_to, None);
    assert_eq!(c.restore_focus, None);
}

#[test]
fn finished_fade_out_switches_to_target() {
    let c = complete_fade(&OverlayState::FadingOut { switch_target: Some(42) }, Some(7));
    assert_eq!(c.next_state, OverlayState::Hidden);
    assert!(c.hide);
    assert_eq!(c.switch_to, Some(42));
    assert_eq!(c.restore_focus, None);
    assert_eq!(c.previous_foreground, None);
}

#[test]
fn finished_fade_out_without_target_restores_focus() {
    let c = complete_fade(&OverlayState::FadingOut { switch_target: None }, Some(7));
    assert_eq!(c.next_state, OverlayState::Hidden);
    assert!(c.hide);
    assert_eq!(c.switch_to, None);
    assert_eq!(c.restore_focus, Some(7));
}

#[test]
fn fade_completion_outside_a_fade_changes_nothing() {
    let state = OverlayState::Active { selected: Some(1) };
    let c = complete_fade(&state, Some(3));
    assert_eq!(c.next_state, state);
    assert_eq!(c.previous_foreground, Some(3));
    assert!(!c.render && !c.hide);
}

use window_selector::hotkey::{HOTKEY_ID, HOTKEY_ID_LABEL};
use window_selector::session::{
    menu_command, on_dismiss_key, on_display_change, on_hotkey, opens_tray_menu, MenuCommand, SessionCommand,
    MENU_ABOUT, MENU_DIRECT_SWITCH, MENU_EXIT, MENU_SETTINGS,
};

#[test]
fn overlay_hotkey_toggles_the_grid() {
    assert_eq!(on_hotkey(HOTKEY_ID, false, &OverlayState::Hidden), SessionCommand::ActivateOverlay);
    assert_eq!(
        on_hotkey(HOTKEY_ID, false, &OverlayState::Active { selected: Some(1) }),
        SessionCommand::DismissOverlay
    );
    assert_eq!(
        on_hotkey(HOTKEY_ID, false, &OverlayState::LabelMode { selected: None }),
        SessionCommand::Ignore
    );
}

#[test]
fn label_hotkey_toggles_label_mode() {
    assert_eq!(on_hotkey(HOTKEY_ID_LABEL, false, &OverlayState::Hidden), SessionCommand::ActivateLabelMode);
    assert_eq!(
        on_hotkey(HOTKEY_ID_LABEL, false, &OverlayState::LabelMode { selected: None }),
        SessionCommand::DismissLabelMode
    );
    assert_eq!(
        on_hotkey(HOTKEY_ID_LABEL, false, &OverlayState::Active { selected: None }),
        SessionCommand::Ignore
    );
}

#[test]
fn hotkeys_are_ignored_while_settings_are_open() {
    assert_eq!(on_hotkey(HOTKEY_ID, true, &OverlayState::Hidden), SessionCommand::Ignore);
    assert_eq!(on_hotkey(HOTKEY_ID_LABEL, true, &OverlayState::Hidden), SessionCommand::Ignore);
    assert_eq!(on_hotkey(99, false, &OverlayState::Hidden), SessionCommand::Ignore);
}

#[test]
fn dismiss_and_display_change_close_the_visible_mode() {
    assert_eq!(on_dismiss_key(&OverlayState::LabelMode { selected: None }), SessionCommand::DismissLabelMode);
    assert_eq!(on_dismiss_key(&OverlayState::Active { selected: None }), SessionCommand::DismissOverlay);
    assert_eq!(on_display_change(&OverlayState::Active { selected: None }), SessionCommand::DismissOverlay);
    assert_eq!(
        on_display_change(&OverlayState::LabelMode { selected: Some(0) }),
        SessionCommand::DismissLabelMode
    );
    assert_eq!(on_display_change(&OverlayState::Hidden), SessionCommand::Ignore);
}

#[test]
fn tray_menu_ids_map_to_commands() {
    assert_eq!(menu_command(MENU_DIRECT_SWITCH), MenuCommand::ToggleDirectSwitch);
    assert_eq!(menu_command(MENU_SETTINGS), MenuCommand::OpenSettings);
    assert_eq!(menu_command(MENU_ABOUT), MenuCommand::ShowAbout);
    assert_eq!(menu_command(MENU_EXIT), MenuCommand::Exit);
    assert_eq!(menu_command(0), MenuCommand::NoCommand);
}

#[test]
fn only_right_button_up_opens_the_tray_menu() {
    assert!(opens_tray_menu(0x0205));
    assert!(opens_tray_menu(0x7_0205));
    assert!(!opens_tray_menu(0x0202));
}
