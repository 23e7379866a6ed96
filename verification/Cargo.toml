[package]
name = "websocket_builder"
version = "0.1.0"
edition = "2021"
publish = false

[dependencies]
anyhow = "=1.0.104"
async-trait = "=0.1.92"
axum = { version = "=0.8.9", features = ["ws"] }
fastwebsockets = { version = "=0.10.0", features = ["upgrade", "with_axum", "unstable-split"] }
flume = "=0.11.1"
futures-util = { version = "=0.3.34", features = ["sink"] }
hickory-resolver = "=0.24.4"
parking_lot = "=0.12.5"
thiserror = "=2.0.21"
tokio = { version = "=1.54.1", features = ["full"] }
tokio-util = "=0.7.20"
tracing = "=0.1.44"
