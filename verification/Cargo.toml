[package]
name = "shishabot"
version = "0.1.0"
edition = "2021"
publish = false

[dependencies]
time = { version = "0.3", features = ["formatting", "parsing", "macros"] }
twilight-model = "0.13"
twilight-interactions = "0.13"
twilight-cache-inmemory = "0.13"
osu-db = "0.3"
rosu-v2 = { version = "0.6", default-features = false }
serenity = { version = "0.11", default-features = false, features = ["builder", "cache", "client", "framework", "gateway", "http", "model", "standard_framework", "utils", "rustls_backend"] }
tokio = { version = "1", features = ["fs", "io-util", "macros", "rt-multi-thread", "sync", "time"] }
reqwest = { version = "0.11", default-features = false, features = ["rustls-tls"] }
zip = { version = "0.6", default-features = false, features = ["deflate"] }
serde = { version = "1", features = ["derive"] }
serde_json = "1"
eyre = "0.6"
anyhow = "1"
thiserror = "1"
chrono = { version = "0.4", default-features = false, features = ["clock", "std"] }
hashbrown = "0.12"
