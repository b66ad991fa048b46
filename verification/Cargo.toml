[package]
name = "volime"
version = "0.1.0"
edition = "2021"
publish = false

[dependencies]
ctrlc = "*"
parking_lot = "*"
windows = { version = "*", features = [
    "Win32_Foundation",
    "Win32_Media_Audio",
    "Win32_System_Com",
    "Win32_System_LibraryLoader",
    "Win32_System_Threading",
    "Win32_UI_Input_KeyboardAndMouse",
    "Win32_UI_Shell",
    "Win32_UI_WindowsAndMessaging",
] }
