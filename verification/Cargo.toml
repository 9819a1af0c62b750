[package]
name = "sso_rs"
version = "0.1.0"
edition = "2021"
publish = false

[dependencies]
openssl = "=0.10.81"
pbkdf2 = { version = "=0.11.0", features = ["simple"] }
rand_core = { version = "=0.6.4", features = ["getrandom"] }
base64 = "=0.23.1"
hex = "=0.4.3"
hmac-sha1 = "=0.2.2"
uuid = { version = "=1.27.0", features = ["v4"] }
chrono = "=0.4.45"
jsonwebtoken = { version = "=11.1.0", features = ["rust_crypto"] }
serde_json = "=1.0.151"
url = "=2.5.8"
urlencoding = "=2.1.3"
validator = { version = "=0.21.0", default-features = false }
