[package]
name = "datasource_engine"
version = "0.1.0"
edition = "2021"
publish = false

[dependencies]
napi = { version = "=1.8.0", features = ["serde-json", "tokio_rt"] }
napi-derive = "=1.1.2"
serde = { version = "=1.0.229", features = ["derive"] }
serde_json = "=1.0.154"
tokio = { version = "=1.54.1", features = ["sync"] }
