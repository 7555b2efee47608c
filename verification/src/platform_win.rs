//! Decisions of the Windows front-end: key mapping, modifier tracking, the
//! configuration file, the tray menu and the keyboard hook's handling of each key.

pub mod config;
pub mod hook;
pub mod injector;
pub mod tray;
pub mod vk_map;
