[package]
name = "egui_glow_internal"
version = "0.1.0"
edition = "2021"
publish = false

[dependencies]
egui = "0.26"
egui_glow = "0.26"
clipboard = "0.5"
thiserror = "1"
windows = { version = "0.52", features = ["Wdk_System_SystemInformation", "Win32_Foundation", "Win32_Graphics_Gdi", "Win32_Graphics_OpenGL", "Win32_System_LibraryLoader", "Win32_System_SystemServices", "Win32_UI_HiDpi", "Win32_UI_Input_KeyboardAndMouse", "Win32_UI_WindowsAndMessaging"] }
