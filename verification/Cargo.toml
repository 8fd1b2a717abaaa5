[package]
name = "aegis_lsp_core"
version = "0.1.0"
edition = "2021"
publish = false

[dependencies]
serde_json = "=1.0.151"
tokio = { version = "=1.53.2", features = ["full"] }
tower-lsp = "=0.20.0"
