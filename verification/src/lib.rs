//! Application shell controller for a proxy client's system tray.
//!
//! The crate computes, from a configuration snapshot, everything the tray
//! shows (menu tree, icon bytes, tooltip), maps tray and menu events to
//! actions, and decides window and process lifecycle transitions. It performs
//! no I/O itself: the surrounding program reads files, talks to the windowing
//! system and carries out the actions that these functions return.

pub mod config;
pub mod event;
pub mod icon;
pub mod menu;
pub mod strings;
pub mod tooltip;
pub mod tray;
pub mod window;
