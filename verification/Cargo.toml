[package]
name = "tui_game_station"
version = "0.1.0"
edition = "2021"
publish = false

[dependencies]
figlet-rs = "1.0.0"
clap = { version = "4", features = ["derive"] }
crossterm = "0.29"
ratatui = "*"
dirs = "6"
anyhow = "1"
