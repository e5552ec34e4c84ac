[package]
name = "seasons"
version = "0.1.0"
edition = "2021"
publish = false

[dependencies]
hex = "0.4"
serde = { version = "1", features = ["derive"] }
serde_json = "1"
reqwest = { version = "0.12", default-features = false, features = ["json", "rustls-tls"] }
tokio = { version = "1", features = ["rt-multi-thread", "macros", "net", "time", "sync"] }
thiserror = "2"
rustfft = "6"
openssl = "0.10"
tokio-dtls-stream-sink = "*"
pipewire = "*"
