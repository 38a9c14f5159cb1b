[package]
name = "tafarn"
version = "0.1.0"
edition = "2021"
publish = false

[dependencies]
base64 = "=0.13.1"
percent-encoding = "=2.3.2"
openssl = "=0.10.82"
uuid = { version = "=1.29.0", features = ["v4"] }
accept-language = "=2.0.0"
serde = { version = "=1.0.229", features = ["derive"] }
serde_json = "=1.0.154"
rocket = { version = "=0.5.2", features = ["secrets", "json"] }
rand = "=0.8.8"
time = "=0.3.55"
url = "=2.5.8"
jwt-simple = { version = "=0.12.17", default-features = false, features = ["pure-rust"] }
regex = "1"
