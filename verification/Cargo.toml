[package]
name = "smali_lsp"
version = "0.1.0"
edition = "2021"
publish = false

[dependencies]
lspower = "*"
serde_json = "*"
tokio = { version = "*", features = ["full"] }
