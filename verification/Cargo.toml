[package]
name = "youtuber"
version = "0.1.0"
edition = "2021"
publish = false

[dependencies]
ratatui = "*"
ratatui-image = { version = "*", default-features = false, features = ["crossterm"] }
image = { version = "*", default-features = false, features = ["jpeg", "png", "webp"] }
tui-input = "*"
futures = "*"
bytes = "*"
serde = { version = "*", features = ["derive"] }
serde_json = "*"
