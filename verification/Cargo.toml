[package]
name = "spectral_forge"
version = "0.1.0"
edition = "2021"
publish = false

[dependencies]
num-complex = "0.4"
realfft = "3"
parking_lot = "0.12"
triple_buffer = "*"
serde = { version = "1", features = ["derive"] }
