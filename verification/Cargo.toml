[package]
name = "easytab"
version = "0.1.0"
edition = "2021"
publish = false

[dependencies]
raw-window-handle = "0.5"
windows = { version = "0.58", features = ["implement", "Win32_Foundation", "Win32_System_Com", "Win32_UI_TabletPC"] }
winit = { version = "0.28", default-features = false, features = ["x11"] }
