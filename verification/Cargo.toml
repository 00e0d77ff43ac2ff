[package]
name = "lsp"
version = "0.1.0"
edition = "2021"
publish = false

[dependencies]
tokio = { version = "1", features = ["net", "io-util", "rt-multi-thread", "macros"] }
tower-lsp = "0.20"
env_logger = "0.11"
tracing-subscriber = "0.3"
