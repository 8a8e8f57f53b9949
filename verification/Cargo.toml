[package]
name = "rust_native"
version = "0.1.0"
edition = "2021"
publish = false

[dependencies]
notify = "*"
crossterm = "*"
toml = "*"
serde = { version = "*", features = ["derive"] }
