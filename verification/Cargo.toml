[package]
name = "vynkor"
version = "0.1.0"
edition = "2021"
publish = false

[dependencies]
axum = "0.7"
metrics = "*"
nix = { version = "*", features = ["signal", "process"] }
prost = "*"
serde = { version = "1", features = ["derive"] }
tokio = { version = "1", features = ["io-util", "macros", "process", "rt", "rt-multi-thread", "sync", "time"] }
tracing = "0.1"
