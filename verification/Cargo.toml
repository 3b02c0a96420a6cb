[package]
name = "audioscribe"
version = "0.1.0"
edition = "2021"
publish = false

[dependencies]
serde = { version = "*", features = ["derive"] }
serde_json = "*"
reqwest = { version = "*", default-features = false, features = ["json", "multipart", "stream", "rustls-tls"] }
tokio = { version = "*", features = ["rt-multi-thread", "macros", "time", "sync"] }
tokio-stream = "*"
cpal = "*"
dotenvy = "*"
lazy_static = "*"

[dev-dependencies]
hound = "*"
