[package]
name = "rsl_tunnel"
version = "0.1.0"
edition = "2021"
publish = false

[dependencies]
anyhow = "1"
dashmap = "5"
futures = "0.3"
hyper = { version = "0.14", features = ["full"] }
log = "0.4"
parking_lot = "0.12"
prost = "0.11"
rand = "0.8"
tokio = { version = "1", features = ["full"] }
tokio-stream = "0.1"
tonic = "0.8"
