[package]
name = "bevy_baseview_windows"
version = "0.1.0"
edition = "2021"
publish = false

[dependencies]
baseview = "0.1"
bevy = { version = "=0.12.1", default-features = false }
raw-window-handle = "=0.5.2"
