[package]
name = "sui_rpc"
version = "0.1.0"
edition = "2021"
publish = false

[dependencies]
jsonrpsee = { version = "0.16.2", features = ["server"] }
hyper = { version = "0.14", features = ["full"] }
prometheus = { version = "0.13", default-features = false }
serde = { version = "1", features = ["derive"] }
serde_json = "1"
axum = "0.6"
tower = "0.4"
tower-http = { version = "0.3.4", features = ["cors", "trace"] }
tokio = { version = "1", features = ["rt", "macros", "net"] }
tracing = "0.1"
