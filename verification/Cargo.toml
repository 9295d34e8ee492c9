[package]
name = "blockwork"
version = "0.1.0"
edition = "2021"
publish = false

[dependencies]
serde = { version = "=1.0.229", features = ["derive"] }
serde_json = { version = "=1.0.154", features = ["raw_value"] }
base64 = "=0.22.1"
bincode = { version = "=2.0.1", features = ["serde"] }
uuid = { version = "=1.29.0", features = ["v4"] }
tokio = { version = "=1.54.1", features = ["io-util", "rt", "macros", "net", "time", "sync"] }
png = "=0.17.16"
