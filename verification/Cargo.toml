[package]
name = "network_discovery"
version = "0.1.0"
edition = "2021"
publish = false

[dependencies]
futures = "0.3"
log = "0.4"
tari_comms = "*"
tari_shutdown = "*"
thiserror = "1"
tokio = { version = "1", features = ["rt", "sync", "time"] }
