[package]
name = "commit_form"
version = "0.1.0"
edition = "2021"
publish = false

[dependencies]
crossterm = "=0.28.1"
ratatui = "=0.28.1"
serde = { version = "=1.0.229", features = ["derive"] }
tui-textarea = "=0.6.1"
