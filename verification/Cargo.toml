[package]
name = "walrus_comms"
version = "0.1.0"
edition = "2021"
publish = false

[dependencies]
rand = "0.8"
anyhow = "1"
colored = "2"
home = "0.5"
indoc = "2"
prettytable-rs = "0.10"
serde = { version = "1", features = ["derive"] }
serde_yaml = "0.9"
futures = "0.3"
tokio = { version = "1", features = ["rt", "rt-multi-thread", "sync", "macros", "time"] }
reqwest = { version = "0.11", default-features = false }
tracing = "0.1"
