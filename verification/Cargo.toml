[package]
name = "discord_message_downloader"
version = "0.1.0"
edition = "2021"
publish = false

[dependencies]
serenity_self = { version = "=0.13.3", default-features = false, features = ["client", "gateway", "rustls_backend", "model", "builder", "utils", "http"] }
tokio = { version = "*", features = ["macros", "rt-multi-thread"] }
