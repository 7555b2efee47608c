//! Vietnamese input method core: the key-handling engine, its spelling
//! tables, macros, per-application input memory, text conversion and the
//! decisions of the Linux and Windows front-ends.

pub mod keycode;
pub mod datatype;
pub mod vietnamese;
pub mod engine;
pub mod text;
pub mod sorted_map;
pub mod smart_switch;
pub mod macro_feature;
pub mod convert;
pub mod app_config;
pub mod platform_linux;
pub mod platform_win;
pub mod ui_tray;
pub mod ui_settings;
