[package]
name = "jlc_discord_bot"
version = "0.1.0"
edition = "2021"
publish = false

[dependencies]
chrono = "0.4"
timeago = { version = "0.3", features = ["chrono"] }
serde = { version = "1", features = ["derive"] }
serde_json = "1"
serenity = "0.10"
sqlx = { version = "0.5.13", features = ["runtime-tokio-rustls", "postgres", "macros"] }
tokio = { version = "1", features = ["full"] }
reqwest = { version = "0.11", features = ["json"] }
futures = "0.3"
log = "0.4"
dotenv = "0.15"
