[package]
name = "gameboy_core"
version = "0.1.0"
edition = "2021"
publish = false

[dependencies]
raylib = "*"
serde = { version = "1", features = ["derive"] }
serde_json = "1"
