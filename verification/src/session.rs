//! Transitions of the overlay session driven by the message loop: the end of a fade,
//! a selection, and the Shift-held monitor badges.
use vstd::prelude::*;
use crate::hotkey::{HOTKEY_ID, HOTKEY_ID_LABEL};
use crate::state::OverlayState;

verus! {

/// Whether a Shift transition should update the monitor-badge flag (and repaint): only
/// while the grid overlay is `Active`, and only when the value actually changes, so
/// auto-repeat key-downs of a held Shift do not repaint continuously.
pub fn should_update_shift_badges(overlay_state: &OverlayState, current: bool, new_value: bool) -> (r: bool)
    ensures
        r == (*overlay_state is Active && current != new_value),
{
    match overlay_state {
        OverlayState::Active { .. } => current != new_value,
        _ => false,
    }
}

/// The state after a window is selected by its letter: label mode stays in label mode,
/// anything else becomes the active grid with that selection.
pub fn state_after_selection(state: &OverlayState, idx: usize) -> (r: OverlayState)
    ensures
        r == (if *state is LabelMode {
            OverlayState::LabelMode { selected: Some(idx) }
        } else {
            OverlayState::Active { selected: Some(idx) }
        }),
{
    match state {
        OverlayState::LabelMode { .. } => OverlayState::LabelMode { selected: Some(idx) },
        _ => OverlayState::Active { selected: Some(idx) },
    }
}

/// What the message loop does when a fade animation completes.
#[derive(Debug, Clone, Copy, PartialEq, Eq, Structural)]
pub struct FadeCompletion {
    /// The new overlay state.
    pub next_state: OverlayState,
    /// The previous-foreground window to remember afterwards.
    pub previous_foreground: Option<isize>,
    /// Render the first frame of the now active overlay.
    pub render: bool,
    /// Hide the overlay windows and stop consuming keys.
    pub hide: bool,
    /// Window to switch to before hiding.
    pub switch_to: Option<isize>,
    /// Window to give focus back to after hiding.
    pub restore_focus: Option<isize>,
}

/// Handle the end of a fade: a finished fade-in makes the overlay active with no
/// selection; a finished fade-out switches to its target (or, without one, restores
/// the previously focused window), hides the overlay and forgets the previous window.
pub fn complete_fade(state: &OverlayState, previous_foreground: Option<isize>) -> (r: FadeCompletion)
    ensures
        r == (match *state {
            OverlayState::FadingIn => FadeCompletion {
                next_state: OverlayState::Active { selected: None },
                previous_foreground,
                render: true,
                hide: false,
                switch_to: None,
                restore_focus: None,
            },
            OverlayState::FadingOut { switch_target } => FadeCompletion {
                next_state: OverlayState::Hidden,
                previous_foreground: None,
                render: false,
                hide: true,
                switch_to: switch_target,
                restore_focus: if switch_target is None { previous_foreground } else { None },
            },
            _ => FadeCompletion {
                next_state: *state,
                previous_foreground,
                render: false,
                hide: false,
                switch_to: None,
                restore_focus: None,
            },
        }),
        // a completed fade-out always ends hidden, and focus goes to exactly one place at most
        *state is FadingOut ==> r.next_state is Hidden && r.hide && !(r.switch_to is Some && r.restore_focus is Some),
{
    match state {
        OverlayState::FadingIn => FadeCompletion {
            next_state: OverlayState::Active { selected: None },
            previous_foreground,
            render: true,
            hide: false,
            switch_to: None,
            restore_focus: None,
        },
        OverlayState::FadingOut { switch_target } => FadeCompletion {
            next_state: OverlayState::Hidden,
            previous_foreground: None,
            render: false,
            hide: true,
            switch_to: *switch_target,
            restore_focus: match switch_target {
                Some(_) => None,
                None => previous_foreground,
            },
        },
        _ => FadeCompletion {
            next_state: *state,
            previous_foreground,
            render: false,
            hide: false,
            switch_to: None,
            restore_focus: None,
        },
    }
}

/// What the message loop does to the overlay session in response to an event.
#[derive(Debug, Clone, Copy, PartialEq, Eq, Structural)]
pub enum SessionCommand {
    /// Snapshot the windows and show the grid overlay.
    ActivateOverlay,
    /// Hide the grid overlay and give focus back to the previous window.
    DismissOverlay,
    /// Snapshot the windows and show letters over them.
    ActivateLabelMode,
    /// Hide label mode and give focus back to the previous window.
    DismissLabelMode,
    /// Nothing to do.
    Ignore,
}

/// Reaction to a registered global hotkey. While the settings window is open both
/// hotkeys are ignored (the recorder may be capturing them). The overlay hotkey opens
/// the grid from `Hidden` and closes it from `Active`; the label hotkey opens label
/// mode from `Hidden` and closes it from `LabelMode`; every other case is ignored.
pub fn on_hotkey(hotkey_id: i32, settings_open: bool, state: &OverlayState) -> (r: SessionCommand)
    ensures
        r == (if settings_open {
            SessionCommand::Ignore
        } else if hotkey_id == HOTKEY_ID {
            match *state {
                OverlayState::Hidden => SessionCommand::ActivateOverlay,
                OverlayState::Active { .. } => SessionCommand::DismissOverlay,
                _ => SessionCommand::Ignore,
            }
        } else if hotkey_id == HOTKEY_ID_LABEL {
            match *state {
                OverlayState::Hidden => SessionCommand::ActivateLabelMode,
                OverlayState::LabelMode { .. } => SessionCommand::DismissLabelMode,
                _ => SessionCommand::Ignore,
            }
        } else {
            SessionCommand::Ignore
        }),
{
    if settings_open {
        return SessionCommand::Ignore;
    }
    if hotkey_id == HOTKEY_ID {
        match state {
            OverlayState::Hidden => SessionCommand::ActivateOverlay,
            OverlayState::Active { .. } => SessionCommand::DismissOverlay,
            _ => SessionCommand::Ignore,
        }
    } else if hotkey_id == HOTKEY_ID_LABEL {
        match state {
            OverlayState::Hidden => SessionCommand::ActivateLabelMode,
            OverlayState::LabelMode { .. } => SessionCommand::DismissLabelMode,
            _ => SessionCommand::Ignore,
        }
    } else {
        SessionCommand::Ignore
    }
}

/// How a Dismiss key press closes the session: label mode closes label mode, any other
/// state closes the grid overlay.
pub fn on_dismiss_key(state: &OverlayState) -> (r: SessionCommand)
    ensures
        r == (if *state is LabelMode { SessionCommand::DismissLabelMode } else { SessionCommand::DismissOverlay }),
{
    match state {
        OverlayState::LabelMode { .. } => SessionCommand::DismissLabelMode,
        _ => SessionCommand::DismissOverlay,
    }
}

/// Reaction to a change of display settings: a visible grid or label overlay is
/// dismissed so that it is not left on screen with the old geometry.
pub fn on_display_change(state: &OverlayState) -> (r: SessionCommand)
    ensures
        r == (match *state {
            OverlayState::Active { .. } => SessionCommand::DismissOverlay,
            OverlayState::LabelMode { .. } => SessionCommand::DismissLabelMode,
            _ => SessionCommand::Ignore,
        }),
{
    match state {
        OverlayState::Active { .. } => SessionCommand::DismissOverlay,
        OverlayState::LabelMode { .. } => SessionCommand::DismissLabelMode,
        _ => SessionCommand::Ignore,
    }
}

/// Tray menu item: toggle "Switch on key press".
pub const MENU_DIRECT_SWITCH: u32 = 2004;
/// Tray menu item: open the settings window.
pub const MENU_SETTINGS: u32 = 2001;
/// Tray menu item: show the About box.
pub const MENU_ABOUT: u32 = 2002;
/// Tray menu item: quit.
pub const MENU_EXIT: u32 = 2003;
/// Mouse notification of the tray icon that opens the context menu (right button up).
pub const TRAY_MENU_EVENT: u32 = 0x0205;

/// A tray menu choice.
#[derive(Debug, Clone, Copy, PartialEq, Eq, Structural)]
pub enum MenuCommand {
    ToggleDirectSwitch,
    OpenSettings,
    ShowAbout,
    Exit,
    /// No item was chosen (or an unknown id).
    NoCommand,
}

/// The tray menu choice for a command id.
pub fn menu_command(cmd: u32) -> (r: MenuCommand)
    ensures
        r == (if cmd == MENU_DIRECT_SWITCH {
            MenuCommand::ToggleDirectSwitch
        } else if cmd == MENU_SETTINGS {
            MenuCommand::OpenSettings
        } else if cmd == MENU_ABOUT {
            MenuCommand::ShowAbout
        } else if cmd == MENU_EXIT {
            MenuCommand::Exit
        } else {
            MenuCommand::NoCommand
        }),
{
    if cmd == MENU_DIRECT_SWITCH {
        MenuCommand::ToggleDirectSwitch
    } else if cmd == MENU_SETTINGS {
        MenuCommand::OpenSettings
    } else if cmd == MENU_ABOUT {
        MenuCommand::ShowAbout
    } else if cmd == MENU_EXIT {
        MenuCommand::Exit
    } else {
        MenuCommand::NoCommand
    }
}

/// Whether a tray icon notification (the low 16 bits of its `lParam`) opens the menu.
pub fn opens_tray_menu(lparam: isize) -> (r: bool)
    ensures
        r == (lparam as int % 0x10000 == TRAY_MENU_EVENT),
{
    let low: isize = lparam & 0xFFFF;
    assert(low == lparam as int % 0x10000) by (bit_vector)
        requires
            low == lparam & 0xFFFF;
    low == 0x0205
}

} // verus!
