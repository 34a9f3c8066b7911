[package]
name = "tablesync"
version = "0.1.0"
edition = "2021"
publish = false

[dependencies]
csv = "1"
serde = { version = "1", features = ["derive"] }
tokio = { version = "1", features = ["macros", "rt-multi-thread", "sync"] }
axum = { version = "0.6", features = ["multipart"] }
sqlx = { version = "0.8", features = ["runtime-tokio", "any"] }
sheets = "0"
google-cloud-storage = "0"
