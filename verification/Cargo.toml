[package]
name = "lilia_backend"
version = "0.1.0"
edition = "2021"
publish = false

[dependencies]
chrono = "*"
flate2 = "*"
hex = "*"
serde = { version = "*", features = ["derive"] }
serde_json = "*"
sha2 = "*"
uuid = { version = "*", features = ["v4"] }
reqwest = { version = "*", default-features = false, features = ["blocking", "json"] }
