[package]
name = "mpesa"
version = "0.1.0"
edition = "2021"
publish = false

[dependencies]
base64 = "0.22"
chrono = "0.4"
rand = "0.8"
reqwest = { version = "0.12", default-features = false, features = ["blocking", "json"] }
rsa = "0.9"
serde = { version = "1", features = ["derive"] }
serde_json = "1"
url = "2"
x509-parser = "*"
