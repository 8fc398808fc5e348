[package]
name = "rustonance"
version = "0.1.0"
edition = "2021"
publish = false

[dependencies]
dotenv = "=0.15.0"
lazy_static = "=1.5.1"
poise = "=0.6.2"
regex = "=1.13.1"
reqwest = { version = "=0.11.27", default-features = false, features = ["rustls-tls"] }
rspotify = { version = "=0.14.0", default-features = false, features = ["client-reqwest", "reqwest-rustls-tls"] }
serde = { version = "=1.0.229", features = ["derive"] }
serde_json = "=1.0.154"
serenity = "=0.12.5"
songbird = { version = "=0.4.6", default-features = false, features = ["serenity", "gateway", "rustls"] }
spotify-rs = "0.4"
tokio = { version = "=1.54.1", features = ["macros", "rt-multi-thread", "signal", "sync"] }
tracing = "=0.1.44"
tracing-subscriber = { version = "=0.3.23", default-features = false, features = ["fmt", "std"] }
