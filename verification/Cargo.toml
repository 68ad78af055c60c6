[package]
name = "coincap_cache"
version = "0.1.0"
edition = "2021"
publish = false

[dependencies]
lazy_static = "*"
log = "*"
reqwest = { version = "*", default-features = false, features = ["blocking"] }
serde = { version = "*", features = ["derive"] }
serde_json = "*"
