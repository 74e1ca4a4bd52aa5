[package]
name = "codex-agent-core"
version = "0.1.0"
edition = "2021"
publish = false

[dependencies]
anyhow = "=1.0.104"
async-trait = "=0.1.92"
serde = { version = "=1.0.229", features = ["derive"] }
serde_json = "=1.0.154"
thiserror = "=1.0.69"
tokio = { version = "=1.54.1", features = ["sync", "rt", "rt-multi-thread", "macros", "time"] }
tracing = "=0.1.44"
uuid = { version = "=1.29.0", features = ["v4", "serde"] }
