[package]
name = "pip_clip"
version = "0.1.0"
edition = "2021"
publish = false

[dependencies]
anyhow = "1"
arboard = "3"
base64 = "0.22"
enigo = "0.2"
image = { version = "0.24", default-features = false, features = ["png"] }
once_cell = "1"
parking_lot = "0.12"
serde = { version = "1", features = ["derive"] }
