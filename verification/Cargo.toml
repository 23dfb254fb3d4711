[package]
name = "cider_core"
version = "0.1.0"
edition = "2021"
publish = false

[dependencies]
libp2p = { version = "0.54", features = ["dcutr", "dns", "ed25519", "gossipsub", "identify", "kad", "macros", "mdns", "noise", "ping", "quic", "relay", "tcp", "tokio", "yamux"] }
tokio = { version = "1", features = ["macros", "rt-multi-thread", "sync", "time"] }
futures = "0.3"
reqwest = { version = "0.12", default-features = false, features = ["json"] }
serde = { version = "1", features = ["derive"] }
serde_json = "1"
thiserror = "1"
tracing = "0.1"
tracing-subscriber = { version = "0.3", features = ["env-filter"] }
parking_lot = "0.12"
chrono = "0.4"
crossterm = "0.28"
ratatui = "0.29"
