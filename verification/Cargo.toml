[package]
name = "ftsov2mon"
version = "0.1.0"
edition = "2021"
publish = false

[dependencies]
actix-web = { version = "=4.15.0", default-features = false }
anyhow = "=1.0.104"
awc = { version = "3", default-features = false }
clap = "=4.6.7"
colored = "=3.1.1"
thiserror = "=2.0.21"
tokio = { version = "=1.53.2", features = ["rt-multi-thread", "macros", "sync", "time"] }
tracing = "=0.1.44"
tracing-subscriber = "=0.3.23"
web3 = { version = "=0.19.0", default-features = false, features = ["http"] }
