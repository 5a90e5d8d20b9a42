[package]
name = "joycon_bridge"
version = "0.1.0"
edition = "2021"
publish = false

[dependencies]
btleplug = "*"
futures = "*"
tokio = { version = "*", features = ["rt-multi-thread", "sync", "macros"] }
tracing = "*"
uuid = "*"
vigem-client = "*"
