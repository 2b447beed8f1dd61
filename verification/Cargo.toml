[package]
name = "pong2"
version = "0.1.0"
edition = "2021"
publish = false

[dependencies]
rand = "0.8"
regex = "1"
bincode = "1.3"
serde = { version = "1", features = ["derive"] }
raylib = "3.7"
