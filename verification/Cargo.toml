[package]
name = "p2pchat"
version = "0.1.0"
edition = "2021"
publish = false

[dependencies]
anyhow = "1"
base64 = "0.22"
chrono = { version = "0.4", default-features = false, features = ["alloc", "std", "now"] }
crossterm = { version = "0.28", features = ["event-stream"] }
futures = "0.3"
libp2p = { version = "0.56", features = ["tokio", "tcp", "mdns", "noise", "yamux", "request-response", "cbor", "relay", "dcutr", "identify", "macros", "ed25519"] }
postcard = { version = "1", features = ["alloc"] }
ratatui = "0.29"
reqwest = { version = "0.12", default-features = false, features = ["json"] }
serde = { version = "1", features = ["derive"] }
serde_json = "1"
tokio = { version = "1", features = ["full"] }
tokio-rusqlite = "0.7"
tokio-util = "0.7"
tracing = "0.1"
uuid = { version = "1", features = ["v4", "serde"] }
