[package]
name = "spt_modpack_updater"
version = "1.0.0"
edition = "2021"
publish = false

[dependencies]
anyhow = "1"
crossterm = "0.28"
enable-ansi-support = "0.2"
ratatui = "0.29"
serde = { version = "1", features = ["derive"] }
serde_json = "1"
ureq = "2"
