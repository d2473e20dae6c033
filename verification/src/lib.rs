//! Keyboard-driven window selector: the decision logic behind the overlay,
//! verified with Verus.
pub mod animation;
pub mod config;
pub mod dialogs;
pub mod hotkey;
pub mod interaction;
pub mod keyboard_hook;
pub mod keycodes;
pub mod letter_assignment;
pub mod mru_tracker;
pub mod overlay_paint;
pub mod session;
pub mod settings;
pub mod startup;
pub mod state;
pub mod text;
pub mod window_enumerator;
pub mod window_info;
pub mod window_mover;
