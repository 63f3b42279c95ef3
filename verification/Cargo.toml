[package]
name = "transfer_rs"
version = "0.1.0"
edition = "2021"
publish = false

[dependencies]
clap = "2"
serde = { version = "1", features = ["derive"] }
serde_json = "1"
tiny_http = "0.12"
toml = "0.5"
