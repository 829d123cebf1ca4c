[package]
name = "tool_agent"
version = "0.1.0"
edition = "2021"
publish = false

[dependencies]
anyhow = "=1.0.104"
mcp-core = { version = "=0.1.42", features = ["sse"] }
rig-core = { version = "=0.11.1", features = ["mcp"] }
tokio = { version = "=1.54.1", features = ["macros", "rt-multi-thread"] }
