[package]
name = "fanling_engine"
version = "0.1.0"
edition = "2021"
publish = false

[dependencies]
ansi_term = "0.12"
askama = "0.12"
serde = { version = "1", features = ["derive"] }
serde_yaml = "0.8"
