[package]
name = "lazystream"
version = "0.1.0"
edition = "2021"
publish = false

[dependencies]
isahc = "*"
serde = { version = "*", features = ["derive"] }
serde_json = "*"
