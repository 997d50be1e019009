[package]
name = "yeti"
version = "0.1.0"
edition = "2021"
publish = false

[dependencies]
serde_json = "1"
serde = { version = "1", features = ["derive"] }
toml = "0.8"
dirs = "5"
clap = { version = "4", features = ["derive"] }
crossterm = "0.28"
ratatui = "0.29"
git2 = { version = "0.20", default-features = false }
ureq = { version = "3", default-features = false }
