//! Workspace, keyboard layout and bind mode tracking for the Hyprland compositor.
//!
//! A status bar wants to know which workspaces there are, which of them is active, and what runs
//! on each. Hyprland says so in events, which do not carry all of it: [`client::Client`] keeps the
//! open windows and the active workspace, turns each event into the updates to send, and says what
//! else Hyprland has to be asked. Talking to Hyprland and to subscribers is left to the caller.

pub mod bindmode;
pub mod cache;
pub mod client;
pub mod config;
pub mod dispatch;
pub mod event;
pub mod event_laws;
pub mod hypr;
pub mod keyboard;
pub mod laws;
pub mod lookup;
pub mod request_laws;
pub mod start_laws;
pub mod update;
pub mod workspace;
