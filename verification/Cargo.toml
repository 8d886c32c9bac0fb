[package]
name = "ex_core"
version = "0.1.0"
edition = "2021"
publish = false

[dependencies]
anyhow = "*"
binance-rs-async = "*"
dashmap = "*"
once_cell = "*"
redis = { version = "*", features = ["tokio-comp"] }
rust_decimal = "*"
serde = { version = "*", features = ["derive"] }
sled = "*"
tokio = { version = "*", features = ["sync", "rt-multi-thread", "macros", "signal", "time"] }
toml = "*"
