[package]
name = "jmtdd"
version = "0.1.0"
edition = "2021"
publish = false

[dependencies]
axum = "*"
parking_lot = "*"
tokio = { version = "*", features = ["rt-multi-thread", "net"] }
