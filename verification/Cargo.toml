[package]
name = "focus_navigation"
version = "0.1.0"
edition = "2021"
publish = false

[dependencies]
bevy = { version = "0.17", default-features = false, features = ["std", "async_executor", "bevy_asset", "bevy_color", "bevy_log", "bevy_state", "bevy_text", "bevy_ui", "bevy_window"] }
tracing-subscriber = { version = "0.3", features = ["env-filter"] }
