[package]
name = "chidori_core"
version = "0.1.0"
edition = "2021"
publish = false

[dependencies]
serde_yaml = "*"
openai-api-rs = "*"
tokio = { version = "*", features = ["rt-multi-thread", "macros"] }
