[package]
name = "mudae_sniper"
version = "0.1.0"
edition = "2021"
publish = false

[dependencies]
regex = "=1.13.1"
chrono = "=0.4.45"
chrono-tz = { version = "=0.10.4", features = ["serde"] }
config = { version = "=0.15.27", default-features = false, features = ["toml"] }
dashmap = "=5.5.3"
dotenv = "=0.15.0"
log = { version = "=0.4.35", features = ["kv"] }
reqwest = { version = "=0.11.27", default-features = false, features = ["json", "rustls-tls"] }
serde = { version = "=1.0.229", features = ["derive"] }
serde_json = "=1.0.154"
serenity_self = { version = "=0.13.3", features = ["collector"] }
tokio = { version = "=1.54.1", features = ["macros", "rt-multi-thread", "sync", "time"] }
