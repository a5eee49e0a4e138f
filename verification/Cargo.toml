[package]
name = "pheno_bridge"
version = "0.1.0"
edition = "2021"
publish = false

[dependencies]
once_cell = "1"
parking_lot = "0.12"
serde_json = "1"
tokio = { version = "1", features = ["rt", "rt-multi-thread"] }
tracing = "0.1"
