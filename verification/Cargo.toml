[package]
name = "chatstronomy"
version = "0.1.0"
edition = "2021"
publish = false

[dependencies]
async-trait = "0.1"
base64 = "*"
chrono = { version = "=0.4.45", features = ["serde"] }
matrix-sdk = { version = "=0.16.1", default-features = false, features = ["markdown", "rustls-tls"] }
mime = "0.3"
reqwest = { version = "0.12", default-features = false, features = ["json", "rustls-tls"] }
serde = { version = "1", features = ["derive"] }
serde_json = "1"
thiserror = "*"
tokio = { version = "1", features = ["full"] }
url = "2"
uuid = { version = "1", features = ["v4"] }
