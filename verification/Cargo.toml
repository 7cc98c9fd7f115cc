[package]
name = "quick_note"
version = "0.1.0"
edition = "2021"
publish = false

[dependencies]
chrono = "*"
directories = "*"
rand = "*"
ratatui = "*"
ratatui-textarea = "*"
serde = { version = "*", features = ["derive"] }
serde_json = "*"
