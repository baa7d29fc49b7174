[package]
name = "cargo_selector"
version = "0.1.0"
edition = "2021"
publish = false

[dependencies]
fuzzy-matcher = "=0.3.7"
console = "=0.16.6"
cargo_metadata = "=0.23.1"
clap = { version = "=4.6.7", features = ["derive"] }
ratatui = { version = "=0.30.2", features = ["serde"] }
serde = { version = "=1.0.229", features = ["derive"] }
toml = "=1.1.7"
umbra = "=0.5.0"
