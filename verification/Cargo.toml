[package]
name = "lime_tui"
version = "0.1.0"
edition = "2021"
publish = false

[dependencies]
unicode-width = "=0.2.3"
crossterm = "=0.29.0"
serde = { version = "=1.0.229", features = ["derive"] }
serde_json = "*"
dirs = "*"
