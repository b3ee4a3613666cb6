[package]
name = "chat_core"
version = "0.1.0"
edition = "2021"
publish = false

[dependencies]
argon2 = "0.5"
chrono = "0.4"
dashmap = "6"
dotenvy = "0.15"
jsonwebtoken = { version = "10", features = ["rust_crypto"] }
once_cell = "1"
regex = "1"
rocket = { version = "0.5", features = ["json"] }
rocket_ws = "0.1"
serde = { version = "1", features = ["derive"] }
serde_json = { version = "1", features = ["preserve_order"] }
surrealdb-types = "*"
thiserror = "2"
tokio = { version = "1", features = ["sync"] }
uuid = { version = "1", features = ["v4"] }
validator = { version = "0.20", features = ["derive"] }
