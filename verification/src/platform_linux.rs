//! Decisions of the Linux front-end: key mapping, modifier tracking, the
//! configuration file and the daemon's handling of each key.

pub mod config;
pub mod daemon;
pub mod injector;
pub mod key_map;
