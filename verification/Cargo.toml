[package]
name = "m_core"
version = "0.1.0"
edition = "2021"
publish = false

[dependencies]
redb = "=2.6.4"
chrono = { version = "=0.4.45", features = ["serde"] }
uuid = { version = "=1.29.0", features = ["v4"] }
bson = "=2.15.0"
serde = { version = "=1.0.229", features = ["derive"] }
serde_json = "=1.0.154"
walkdir = "=2.5.0"
zip = { version = "=9.0.5", default-features = false, features = ["deflate", "aes-crypto"] }
unrar = "=0.5.8"
sevenz-rust2 = "=0.24.1"
toml = "=1.1.8"
config = { version = "=0.15.27", default-features = false, features = ["toml"] }
anyhow = "=1.0.104"
tracing = "=0.1.44"
tracing-appender = "=0.2.5"
tracing-subscriber = "=0.3.23"
