[package]
name = "rgb_fungible"
version = "0.1.0"
edition = "2021"
publish = false

[dependencies]
chrono = { version = "*", default-features = false }
lnpbp = "*"
serde = { version = "*", features = ["derive"] }
zmq = "*"
