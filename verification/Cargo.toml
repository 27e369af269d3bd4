[package]
name = "voidwm"
version = "0.1.0"
edition = "2021"
publish = false

[dependencies]
xcb = "0.9"
xcb-util = { version = "0.3", features = ["ewmh", "icccm", "keysyms"] }
