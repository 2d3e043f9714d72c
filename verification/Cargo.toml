[package]
name = "deltarune_drive"
version = "0.1.0"
edition = "2021"
publish = false

[dependencies]
chrono = { version = "0.4", features = ["serde"] }
serde = { version = "1", features = ["derive"] }
serde_json = "1"
dirs = "*"
crossterm = "0.29"
ratatui = "0.30"
macroquad = "0.4"
