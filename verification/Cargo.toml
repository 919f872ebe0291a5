[package]
name = "panel_state"
version = "0.1.0"
edition = "2021"
publish = false

[dependencies]
bitcoin = "=0.29.2"
iced = { version = "=0.4.2", features = ["pure", "qr_code", "tokio"] }
