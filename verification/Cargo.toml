[package]
name = "pg_human"
version = "0.1.0"
edition = "2021"
publish = false

[dependencies]
anyhow = "*"
openai = "*"
tokio = { version = "*", features = ["rt", "time", "macros"] }
