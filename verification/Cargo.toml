[package]
name = "tan_lsp_server"
version = "0.1.0"
edition = "2021"
publish = false

[dependencies]
anyhow = "1"
crossbeam = "0.8"
lsp-server = "0.10"
lsp-types = "0.97"
serde = { version = "1", features = ["derive"] }
serde_json = "1"
tan = "=0.16.0"
tan-formatting = "=0.16.0"
tan-lints = "=0.16.0"
tracing = "0.1"
tracing-subscriber = { version = "0.3", features = ["env-filter"] }
