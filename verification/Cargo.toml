[package]
name = "crowd_sim"
version = "0.1.0"
edition = "2021"
publish = false

[dependencies]
tokio = { version = "*", features = ["sync", "rt-multi-thread", "net", "time", "macros", "io-util"] }
futures = "*"
tokio-tungstenite = "*"
