[package]
name = "lighter_sdk"
version = "0.1.0"
edition = "2021"
publish = false

[dependencies]
serde = { version = "1", features = ["derive"] }
serde_json = "1"
serde_repr = "0.1"
thiserror = "2"
tracing = "0.1"
async-trait = "0.1"
futures-util = { version = "0.3", default-features = false, features = ["sink", "std"] }
tokio = { version = "1", features = ["macros", "rt-multi-thread", "sync", "time", "net"] }
tokio-tungstenite = { version = "0.26", default-features = false, features = ["connect", "handshake"] }
reqwest = { version = "0.12", default-features = false, features = ["json", "multipart"] }
libloading = "0.8"
