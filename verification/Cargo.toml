[package]
name = "conn_pool"
version = "0.1.0"
edition = "2021"
publish = false

[dependencies]
futures-channel = "*"
futures-util = "*"
parking_lot = "*"
tokio = { version = "*", features = ["rt", "time", "sync"] }
