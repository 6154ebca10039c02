[package]
name = "grid_editor"
version = "0.1.0"
edition = "2021"
publish = false

[dependencies]
color-eyre = "*"
crossterm = "*"
itertools = "*"
ratatui = "*"
tokio = { version = "*", features = ["full"] }
