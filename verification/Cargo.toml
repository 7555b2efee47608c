[package]
name = "xxkey"
version = "0.1.0"
edition = "2021"
publish = false

[dependencies]
ctrlc = "3"
windows-sys = { version = "0.52", features = ["Win32_Foundation", "Win32_UI_WindowsAndMessaging", "Win32_UI_Input_KeyboardAndMouse", "Win32_UI_Shell", "Win32_System_LibraryLoader"] }
