[package]
name = "lp_bot"
version = "0.1.0"
edition = "2021"
publish = false

[dependencies]
alloy-primitives = { version = "=1.7.3", default-features = false, features = ["std"] }
eyre = "=0.6.14"
num-traits = "=0.2.19"
serde = { version = "=1.0.229", features = ["derive"] }
serde_json = "=1.0.154"
tokio = { version = "=1.54.1", features = ["rt-multi-thread", "time"] }
uniswap-sdk-core = { version = "=7.0.0", default-features = false }
uniswap-v3-sdk = { version = "=7.0.0", default-features = false, features = ["extensions"] }
