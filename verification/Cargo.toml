[package]
name = "rust-analyzer-mcp"
version = "0.1.0"
edition = "2021"
publish = false

[dependencies]
anyhow = "1"
clap = { version = "4", features = ["derive", "env"] }
env_logger = "0.11"
flate2 = "1"
log = "0.4"
lsp-types = "0.95"
reqwest = { version = "0.12", default-features = false, features = ["json", "rustls-tls"] }
serde = { version = "1", features = ["derive"] }
serde_json = "1"
tar = "0.4"
tempfile = "3"
tokio = { version = "1", features = ["full"] }
toml = "0.8"
url = "2"
zip = { version = "2", default-features = false, features = ["deflate"] }
