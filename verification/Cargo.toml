[package]
name = "astaprint"
version = "0.1.0"
edition = "2021"
publish = false

[dependencies]
hex = "0.4"
chrono = "0.4"
serde = { version = "1", features = ["derive"] }
bincode = "1"
log = "0.4"
