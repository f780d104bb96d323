[package]
name = "wita"
version = "0.1.0"
edition = "2021"
publish = false

[dependencies]
log = "=0.4.34"
num = "=0.4.3"
raw-window-handle = "=0.3.4"
serde = { version = "=1.0.229", features = ["derive"] }
windows = { version = "0.58", features = ["Win32_Foundation", "Win32_Graphics_Gdi", "Win32_UI_WindowsAndMessaging", "Win32_UI_HiDpi", "Win32_UI_Input", "Win32_UI_Input_Ime", "Win32_UI_Input_KeyboardAndMouse", "Win32_UI_Shell", "Win32_UI_Controls", "Win32_Devices_HumanInterfaceDevice", "Win32_System_LibraryLoader", "Win32_Storage_FileSystem", "Win32_Security", "Win32_System_Diagnostics_Debug", "Win32_Globalization"] }
