[package]
name = "neo4g"
version = "0.1.0"
edition = "2021"
publish = false

[dependencies]
neo4rs = "*"
uuid = { version = "1", features = ["v4"] }
heck = "*"
serde = { version = "1", features = ["derive"] }
anyhow = "1"
chrono = "0.4"
tokio = { version = "1", features = ["macros", "rt-multi-thread"] }
dotenv = "0.15"
