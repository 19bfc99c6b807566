[package]
name = "hotkeyz"
version = "0.1.0"
edition = "2021"
publish = false

[dependencies]
error-chain = { version = "0.12", default-features = false }
windows = { version = "0.39", features = ["Win32_Foundation", "Win32_Graphics_Gdi", "Win32_System_DataExchange", "Win32_System_LibraryLoader", "Win32_UI_Input", "Win32_UI_Input_KeyboardAndMouse", "Win32_UI_WindowsAndMessaging"] }
