[package]
name = "reactor"
version = "0.1.0"
edition = "2021"
publish = false

[dependencies]
futures = { version = "0.3", features = ["thread-pool"] }
tokio = { version = "1", features = ["rt-multi-thread", "time"] }
futures-timer = "3"
