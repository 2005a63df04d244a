[package]
name = "switchbot_client"
version = "0.1.0"
edition = "2021"
publish = false

[dependencies]
hmac = "*"
sha2 = "*"
base64 = "*"
clap = { version = "*", features = ["derive"] }
reqwest = { version = "*", default-features = false }
tokio = { version = "*", features = ["rt-multi-thread", "macros"] }
chrono = "*"
uuid = { version = "*", features = ["v4"] }
anyhow = "*"
