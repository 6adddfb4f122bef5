[package]
name = "near_primitives"
version = "0.1.0"
edition = "2021"
publish = false

[dependencies]
bs58 = "=0.5.1"
serde = { version = "=1.0.229", features = ["derive"] }
lazy_static = "=1.5.1"
ed25519-dalek = "=3.0.0"
getrandom = "=0.4.3"
