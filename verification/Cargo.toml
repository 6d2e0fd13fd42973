[package]
name = "mostro"
version = "0.1.0"
edition = "2021"
publish = false

[dependencies]
anyhow = "=1.0.104"
chrono = "=0.4.45"
clap = "=4.6.7"
mostro-core = "=0.17.3"
nostr = { version = "=0.45.5", features = ["nip59"] }
nostr-sdk = "=0.45.4"
tokio = { version = "=1.54.1", features = ["full"] }
tracing = "=0.1.44"
