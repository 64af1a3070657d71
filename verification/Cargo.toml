[package]
name = "cypackages"
version = "0.1.0"
edition = "2021"
publish = false

[dependencies]
which = "*"
dirs = "*"
anyhow = "*"
tokio = { version = "*", features = ["full"] }
chrono = { version = "*", features = ["serde"] }
serde = { version = "*", features = ["derive"] }
serde_json = "*"
crossterm = "*"
inquire = "*"
ratatui = "*"
async-trait = "*"
whoami = "*"
