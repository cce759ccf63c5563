//! Model of a desktop shell bootstrap: the window-visibility state machine
//! behind a system tray icon, its menu dispatch, and the tray-icon image
//! resolution with its fallback to the host's default icon.
//!
//! The host GUI framework itself (windows, tray, plugins) is an external
//! collaborator: the library decides, from the current state and an incoming
//! event, which host calls to make; an unverified driver performs them.

pub mod icon;
pub mod laws;
pub mod menu;
pub mod shell;
