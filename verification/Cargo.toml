[package]
name = "message_bridge"
version = "0.1.0"
edition = "2021"
publish = false

[dependencies]
winapi = { version = "0.3", features = ["basetsd", "commctrl", "minwindef", "windef", "winuser"] }
winit = { version = "0.28", default-features = false, features = ["x11"] }
