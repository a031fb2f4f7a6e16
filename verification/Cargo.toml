[package]
name = "certsd"
version = "0.1.0"
edition = "2021"
publish = false

[dependencies]
anyhow = "1"
chrono = "0.4"
cloudflare = "*"
hyperacme = "*"
openssl = "0.10"
ron = "*"
serde = { version = "1", features = ["derive"] }
slack-hook2 = "*"
telegram-bot-api = "*"
tokio = { version = "1", features = ["macros", "rt", "fs", "time"] }
tracing = "0.1"
tracing-subscriber = { version = "0.3", features = ["env-filter"] }
