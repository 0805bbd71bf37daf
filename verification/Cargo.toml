[package]
name = "querymt_agent"
version = "0.1.0"
edition = "2021"
publish = false

[dependencies]
agent-client-protocol = "=5.0.0"
arc-swap = "=1.9.3"
base64 = "=0.22.1"
futures-util = "=0.3.34"
ignore = "=0.4.34"
kameo = "=0.22.2"
qrcode = { version = "=0.14.1", default-features = false }
serde_json = "=1.0.154"
time = { version = "=0.3.55", features = ["formatting"] }
tokio = { version = "=1.54.1", features = ["macros", "process", "rt", "sync", "time"] }
tokio-util = "=0.7.20"
uuid = { version = "=1.29.0", features = ["v4", "v7"] }
