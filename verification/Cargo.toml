[package]
name = "autoclicker"
version = "0.1.0"
edition = "2021"
publish = false

[dependencies]
serde = { version = "1", features = ["derive"] }
enigo = "0.5"
rdev = "0.5"
x11rb = "0.13"
cocoa = "0.26"
objc = "0.2"
core-graphics = "0.24"
windows = { version = "0.58", features = ["Win32_Foundation", "Win32_UI_WindowsAndMessaging"] }
