[package]
name = "fewwis"
version = "0.1.0"
edition = "2021"
publish = false

[dependencies]
rand = "0.8"
poise = "0.6"
serenity = "0.12"
sea-orm = { version = "0.12", default-features = false, features = ["sqlx-mysql", "runtime-tokio-rustls", "macros"] }
sea-orm-migration = { version = "0.12", default-features = false, features = ["sqlx-mysql", "runtime-tokio-rustls"] }
reqwest = { version = "0.11", default-features = false, features = ["json", "rustls-tls"] }
tokio = { version = "1", features = ["macros", "rt-multi-thread"] }
tracing = "0.1"
tracing-subscriber = "0.3"
dotenvy = "0.15"
async-trait = "0.1"
pistones = "*"
serde = { version = "1", features = ["derive"] }
