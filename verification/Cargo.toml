[package]
name = "mcp_agents"
version = "0.1.0"
edition = "2021"
publish = false

[dependencies]
uuid = { version = "*", features = ["v4"] }
serde = { version = "*", features = ["derive"] }
serde_json = "*"
tokio = { version = "*", features = ["rt-multi-thread", "macros", "net", "fs", "io-util"] }
reqwest = { version = "*", default-features = false, features = ["json", "multipart"] }
axum = { version = "*", features = ["multipart"] }
tower-http = { version = "*", features = ["cors", "fs"] }
tracing = "*"
tracing-subscriber = { version = "*", features = ["env-filter"] }
dotenv = "*"
