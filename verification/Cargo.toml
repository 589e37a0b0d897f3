[package]
name = "revolut"
version = "0.1.0"
edition = "2021"
publish = false

[dependencies]
chrono = "*"
urlencoding = "*"
serde = { version = "*", features = ["derive"] }
serde_json = "*"
reqwest = { version = "*", default-features = false, features = ["blocking", "form", "multipart"] }
