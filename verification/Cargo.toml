[package]
name = "altertable-lakehouse"
version = "0.2.0"
edition = "2021"
publish = false

[dependencies]
base64 = "0.22"
futures-util = "0.3"
reqwest = { version = "0.12", default-features = false, features = ["json", "rustls-tls"] }
serde = { version = "1", features = ["derive"] }
serde_json = "1"
serde_plain = "1"
uuid = { version = "1", features = ["serde"] }
