[package]
name = "agent_tools"
version = "0.1.0"
edition = "2021"
publish = false

[dependencies]
anyhow = "1"
async-trait = "0.1"
chrono = { version = "0.4", default-features = false, features = ["std"] }
hex = "0.4"
hmac = "0.12"
reqwest = { version = "0.12", default-features = false, features = ["json"] }
serde = { version = "1", features = ["derive"] }
serde_json = { version = "1", features = ["float_roundtrip"] }
sha2 = "0.10"
tokio = { version = "1", features = ["io-util", "process", "rt", "sync", "time"] }
tracing = "0.1"
urlencoding = "2"
uuid = { version = "1", features = ["v4"] }
