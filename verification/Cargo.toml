[package]
name = "focusd"
version = "0.1.0"
edition = "2021"
publish = false

[dependencies]
chrono = "*"
clap = { version = "*", features = ["derive"] }
crossterm = "*"
figlet-rs = "*"
notify-rust = "*"
ratatui = "*"
ratatui-themes = "*"
rusqlite = { version = "*", features = ["bundled"] }
serde = { version = "*", features = ["derive"] }
serde_json = "*"
toml = "*"
toml_edit = "*"
tui-input = "*"
tui-widget-list = "*"
