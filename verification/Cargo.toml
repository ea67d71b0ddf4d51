[package]
name = "thehand"
version = "0.1.0"
edition = "2021"
publish = false

[dependencies]
anyhow = "=1.0.104"
chrono = { version = "=0.4.45", default-features = false, features = ["clock", "std"] }
crossterm = "=0.27.0"
enigo = "0.1"
hound = "=3.5.1"
ratatui = "=0.24.0"
serde = { version = "=1.0.229", features = ["derive"] }
shellexpand = "=3.1.2"
toml = "=0.8.23"
