[package]
name = "owlguard-mcp"
version = "0.1.0"
edition = "2021"
publish = false

[dependencies]
aho-corasick = "1"
regex = "1"
serde = { version = "1", features = ["derive"] }
serde_json = "1"
schemars = "*"
rmcp = { version = "*", features = ["server", "transport-io"] }
tokio = { version = "1", features = ["macros", "rt-multi-thread", "io-std"] }
anyhow = "1"
thiserror = "*"
log = "0.4"
env_logger = "*"
