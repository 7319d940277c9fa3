[package]
name = "ai-music-mcp"
version = "0.1.0"
edition = "2021"
publish = false

[dependencies]
psm-mcp-core = "*"
psm-mcp-transport = "*"
serde_json = "1"
async-trait = "0.1"
tokio = { version = "1", features = ["macros", "rt-multi-thread", "io-std"] }
tracing-subscriber = { version = "0.3", features = ["env-filter"] }
