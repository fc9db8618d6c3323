[package]
name = "csgo_gsi"
version = "0.1.0"
edition = "2021"
publish = false

[dependencies]
axum = "0.6"
serde = { version = "1", features = ["derive"] }
thiserror = "1"
tokio = { version = "1", features = ["sync", "rt-multi-thread", "net", "time", "macros"] }
tracing = "0.1"
vdf-serde = "*"
