[package]
name = "erp_tracker"
version = "0.1.0"
edition = "2021"
publish = false

[dependencies]
url = "=2.5.8"
chrono = "=0.4.45"
uuid = { version = "=1.29.0", features = ["v4"] }
rand = "=0.8.8"
serde = { version = "=1.0.229", features = ["derive"] }
serde_json = "=1.0.154"
reqwest = { version = "0.12", default-features = false, features = ["json", "multipart", "rustls-tls"] }
rusqlite = { version = "*", features = ["bundled"] }
tokio = { version = "1", features = ["time", "rt"] }
dotenvy = "0.15"
keyring = "3"
image = { version = "0.25", default-features = false, features = ["jpeg"] }
