[package]
name = "tpu_client_next"
version = "0.1.0"
edition = "2021"
publish = false

[dependencies]
log = "0.4"
lru = "0.7"
thiserror = "1"
tokio = { version = "1", features = ["rt", "sync", "time"] }
tokio-util = "0.7"
