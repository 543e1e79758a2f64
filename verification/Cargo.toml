[package]
name = "mpc_core"
version = "0.1.0"
edition = "2021"
publish = false

[dependencies]
rand = "0.8"
futures = "0.3"
tokio = { version = "1", features = ["io-util", "macros", "net", "rt", "rt-multi-thread", "sync"] }
