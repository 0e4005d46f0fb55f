[package]
name = "durabletask"
version = "0.1.0"
edition = "2021"
publish = false

[dependencies]
dashmap = "*"
anyhow = "*"
thiserror = "*"
serde = { version = "*", features = ["derive"] }
serde_json = "*"
tokio = { version = "*", features = ["sync", "rt", "macros", "time"] }
futures-util = "*"
parking_lot = "*"
prost-wkt-types = "*"
tonic = "*"
tracing = "*"
derive_more = { version = "*", features = ["from"] }
