[package]
name = "win_desktop_switcher"
version = "0.1.0"
edition = "2021"
publish = false

[dependencies]
anyhow = "=1.0.104"
crossbeam-channel = "=0.5.17"
serde = { version = "=1.0.229", features = ["derive"] }
toml = "=1.1.8"
winvd = "=0.0.49"
windows = { version = "=0.61.3", features = ["Win32_Foundation", "Win32_UI_WindowsAndMessaging", "Win32_UI_Input_KeyboardAndMouse", "Win32_UI_Input_Pointer", "Win32_UI_Controls", "Win32_UI_Shell", "Win32_System_LibraryLoader", "Win32_System_SystemInformation", "Win32_System_Registry", "Win32_Graphics_Gdi"] }
