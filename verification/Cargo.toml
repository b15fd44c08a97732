[package]
name = "blob_shared_key"
version = "0.1.0"
edition = "2021"
publish = false

[dependencies]
base64 = "0.22"
chrono = { version = "0.4", default-features = false, features = ["clock"] }
hmac = "0.12"
reqwest = "0.12"
sha2 = "0.10"
tokio = { version = "1", features = ["macros", "rt-multi-thread"] }
xml-rs = "0.8"
