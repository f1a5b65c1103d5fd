[package]
name = "shamebot"
version = "0.1.0"
edition = "2021"
publish = false

[dependencies]
chrono = "0.4"
uuid = { version = "1", features = ["v4", "serde"] }
log = "0.4"
fern = { version = "0.6", features = ["colored"] }
tokio = { version = "1", features = ["macros", "rt-multi-thread", "sync", "time"] }
tokio-cron-scheduler = "*"
tokio-postgres = { version = "0.7", features = ["with-uuid-1"] }
mobc = "0.8"
mobc-postgres = "0.8"
thiserror = "1"
serde = { version = "1", features = ["derive"] }
warp = "0.3"
serenity = "0.11"
