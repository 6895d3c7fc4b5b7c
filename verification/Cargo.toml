[package]
name = "nibandh"
version = "0.1.0"
edition = "2021"
publish = false

[dependencies]
base64 = "*"
image = "*"
serde = { version = "*", features = ["derive"] }
serde_json = "*"
rusqlite = { version = "*", features = ["bundled"] }
chrono = "*"
uuid = { version = "*", features = ["v4"] }
dirs = "*"
reqwest = { version = "*", default-features = false, features = ["blocking", "rustls-tls"] }
