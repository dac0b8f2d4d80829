[package]
name = "athena_cli"
version = "0.1.0"
edition = "2021"
publish = false

[dependencies]
anyhow = "*"
colored = "*"
indicatif = "*"
reqwest = { version = "*", default-features = false }
tokio = { version = "*", features = ["rt-multi-thread", "macros"] }
tracing-subscriber = { version = "*", features = ["env-filter"] }
