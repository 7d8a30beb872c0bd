[package]
name = "gitty"
version = "0.1.0"
edition = "2021"
publish = false

[dependencies]
git2 = { version = "0.20", default-features = false }
ratatui = "0.29"
crossterm = "0.28"
ansi-to-tui = "7"
anyhow = "1"
