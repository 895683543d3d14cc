[package]
name = "rollup_tx"
version = "0.1.0"
edition = "2021"
publish = false

[dependencies]
poseidon-rs = "=0.0.10"
ff_ce = "=0.11.0"
anyhow = "*"
crossbeam-channel = "*"
log = "*"
serde = { version = "*", features = ["derive"] }
serde_json = "*"
tokio = { version = "*", features = ["rt-multi-thread", "macros"] }
rdkafka = "*"
