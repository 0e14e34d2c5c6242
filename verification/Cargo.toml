[package]
name = "request_engine"
version = "0.1.0"
edition = "2021"
publish = false

[dependencies]
base64 = "=0.23.1"
hex = "=0.4.3"
sha1 = "=0.11.0"
rand = "=0.8.8"
http = "=1.5.0"
mime_guess = "=2.0.5"
serde = { version = "*", features = ["derive"] }
serde_json = "*"
uuid = { version = "*", features = ["v4"] }
tokio = { version = "*", features = ["full"] }
reqwest = { version = "=0.12.28", default-features = false, features = ["gzip", "brotli", "deflate", "multipart", "cookies", "rustls-tls"] }
reqwest_cookie_store = "=0.8.2"
