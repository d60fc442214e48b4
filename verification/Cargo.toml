[package]
name = "beacon_sync"
version = "0.1.0"
edition = "2021"
publish = false

[dependencies]
crossbeam-channel = "0.3"
futures = "0.1"
rand = "0.5.5"
serde = "1"
serde_derive = "1"
slog = "2"
tiny-keccak = "1.4"
tokio = "0.1"
