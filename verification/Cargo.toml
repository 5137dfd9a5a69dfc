[package]
name = "ltlsp"
version = "0.1.0"
edition = "2021"
publish = false

[dependencies]
anyhow = "=1.0.104"
etcetera = "=0.11.0"
libloading = "=0.9.0"
lsp-types = "=0.97.0"
reqwest = { version = "=0.13.5", default-features = false, features = ["form", "json"] }
serde = { version = "=1.0.229", features = ["derive"] }
serde_json = "=1.0.151"
tokio = { version = "=1.53.2", features = ["full"] }
toml = "=1.1.7"
tracing = "=0.1.44"
tracing-subscriber = "=0.3.23"
tree-sitter = "=0.27.0"
