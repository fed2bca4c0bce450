[package]
name = "webproof"
version = "0.1.0"
edition = "2021"
publish = false

[dependencies]
ring = "*"
base64 = "*"
chrono = "*"
uuid = { version = "*", features = ["v4"] }
ed25519-dalek = "*"
hmac = "*"
sha2 = "*"
