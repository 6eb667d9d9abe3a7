[package]
name = "omarchy-theme-studio"
version = "0.1.0"
edition = "2021"
publish = false

[dependencies]
dirs = "*"
ratatui = "*"
serde = { version = "1", features = ["derive"] }
serde_json = "1"
thiserror = "*"
