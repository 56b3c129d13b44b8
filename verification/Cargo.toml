[package]
name = "aegisforge"
version = "0.2.0"
edition = "2021"
publish = false

[dependencies]
rmcp = { version = "0.1", features = ["server", "macros", "transport-io"] }
schemars = "0.8"
serde = { version = "1", features = ["derive"] }
serde_json = "1"
tokio = { version = "1", features = ["full"] }
anyhow = "1"
futures = "0.3"
tracing = "0.1"
tracing-subscriber = { version = "0.3", features = ["env-filter"] }
thiserror = "1"
async-trait = "0.1"
