[package]
name = "agent_session_search"
version = "0.1.0"
edition = "2021"
publish = false

[dependencies]
uuid = { version = "1", features = ["v7", "serde"] }
serde = { version = "1", features = ["derive"] }
serde_json = "1"
chrono = { version = "0.4", default-features = false, features = ["std", "clock"] }
anyhow = "1"
tracing = "0.1"
reqwest = { version = "0.12", default-features = false, features = ["json"] }
aws-sdk-sesv2 = { version = "1", default-features = false }
sqlx = { version = "0.8", default-features = false, features = ["postgres", "uuid", "chrono"] }
