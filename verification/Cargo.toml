[package]
name = "bkmr_lsp"
version = "0.1.0"
edition = "2021"
publish = false

[dependencies]
anyhow = "*"
async-trait = "*"
atty = "*"
clap = { version = "*", features = ["derive"] }
serde = { version = "*", features = ["derive"] }
serde_json = "*"
tokio = { version = "*", features = ["full"] }
tower-lsp = "*"
tracing = "*"
tracing-subscriber = { version = "*", features = ["env-filter"] }
