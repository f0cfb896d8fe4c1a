[package]
name = "veriscore_rs"
version = "0.1.0"
edition = "2021"
publish = false

[dependencies]
unicode-segmentation = "=1.13.3"
serde_json = "=1.0.151"
serde = { version = "1", features = ["derive"] }
anyhow = "1"
tokio = { version = "1", features = ["rt-multi-thread", "macros", "net", "time"] }
axum = "=0.8.9"
futures = "0.3"
reqwest = { version = "=0.13.5", features = ["json"] }
governor = "=0.10.4"
nonzero_ext = "*"
async-openai = { version = "=0.42.1", features = ["chat-completion"] }
async-trait = "0.1"
clap = { version = "4", features = ["derive"] }
tracing-subscriber = { version = "*", features = ["env-filter"] }
