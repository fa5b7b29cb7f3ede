[package]
name = "bb84_simulazione"
version = "0.1.0"
edition = "2021"
publish = false

[dependencies]
rand = "0.8"
actix-web = "4"
futures-util = "0.3"
serde = { version = "1", features = ["derive"] }
tokio = { version = "1", features = ["rt", "sync", "process", "io-util"] }
tokio-stream = { version = "0.1", features = ["sync"] }
