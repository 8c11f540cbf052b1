//! Keeps the names of a terminal multiplexer's tabs in step with the titles
//! of their focused panes.
//!
//! The host drives a [`State`] with events; each call answers with the
//! commands that the host is to carry out: arm a one-shot timer, or rename a
//! tab. On every timer event the reconciler arms the timer again and, unless
//! a tab is being renamed by hand, renames each tab after its focused pane.
pub mod config;
pub mod lemmas;
pub mod reconciler;
pub mod text;

pub use reconciler::{Command, Event, InputMode, PaneInfo, PaneSnapshot, State, TabInfo};
