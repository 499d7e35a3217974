[package]
name = "local_ipc"
version = "0.1.0"
edition = "2021"
publish = false

[dependencies]
tokio = { version = "1", features = ["net", "rt", "rt-multi-thread", "io-util", "macros", "sync", "time"] }
tokio-util = "0.7"
futures-core = "0.3"
futures-util = "0.3"
serde = { version = "1", features = ["derive"] }
serde_json = "1"
