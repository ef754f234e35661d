[package]
name = "commit_browser"
version = "0.1.0"
edition = "2021"
publish = false

[dependencies]
anyhow = "1"
chrono = "0.4"
crossterm = "0.27"
git2 = { version = "0.18", default-features = false }
ratatui = "0.26"
serde = { version = "1", features = ["derive"] }
