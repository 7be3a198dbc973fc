[package]
name = "carillon-core"
version = "0.1.0"
edition = "2021"
publish = false

[dependencies]
io-imap = { version = "=0.7.1", default-features = false }
io-webdav = { version = "=0.5.1", default-features = false }
io-http = { version = "=0.5.0", default-features = false }
secrecy = "=0.10.3"
url = "=2.5.8"
serde = { version = "=1.0.229", features = ["derive"] }
thiserror = "=2.0.21"
anyhow = "=1.0.104"
tokio = { version = "=1.54.1", features = ["io-util", "time", "rt", "macros", "sync"] }
