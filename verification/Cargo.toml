[package]
name = "mcp-rust-proxy"
version = "0.1.0"
edition = "2021"
publish = false

[dependencies]
url = "=2.5.8"
dashmap = "=6.2.1"
uuid = { version = "=1.29.0", features = ["v4"] }
tokio = { version = "=1.54.1", features = ["sync", "rt-multi-thread", "macros", "io-std", "io-util", "process", "time", "signal"] }
serde = { version = "=1.0.229", features = ["derive"] }
serde_json = "=1.0.154"
prometheus = { version = "=0.13.4", default-features = false }
thiserror = "=1.0.69"
async-trait = "=0.1.92"
bytes = "=1.12.1"
tracing = "=0.1.44"
chrono = "=0.4.45"
warp = "0.3"
futures = "0.3"
tokio-stream = "0.1"
nix = { version = "0.29", features = ["signal"] }
reqwest = { version = "0.12", default-features = false }
