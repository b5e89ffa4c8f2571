[package]
name = "staze"
version = "0.1.0"
edition = "2021"
publish = false

[dependencies]
crossterm = "*"
ratatui = "*"
rusqlite = { version = "*", features = ["bundled"] }
