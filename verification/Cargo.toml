[package]
name = "webhook_dispatcher"
version = "0.1.0"
edition = "2021"
publish = false

[dependencies]
anyhow = "1"
futures-lite = "2"
hex = "0.4"
hmac = "0.12"
lapin = { version = "2", default-features = false }
postgrest = "1"
reqwest = { version = "0.12", default-features = false }
serde = { version = "1", features = ["derive"] }
serde_json = "1"
sha2 = "0.10"
tokio = { version = "1", features = ["macros", "net", "rt", "sync", "time"] }
tracing = "0.1"
url = "2"
