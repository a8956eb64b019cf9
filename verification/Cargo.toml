[package]
name = "passforge"
version = "0.1.0"
edition = "2021"
publish = false

[dependencies]
magic-crypt = "3"
rand = "0.8"
serde = { version = "1", features = ["derive"] }
serde_json = "1"
clipboard = "0.5"
