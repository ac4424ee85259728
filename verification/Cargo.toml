[package]
name = "restd"
version = "0.1.0"
edition = "2021"
publish = false

[dependencies]
alloy-primitives = "0.8"
revm = { version = "19", default-features = false, features = ["std"] }
serde = { version = "1", features = ["derive"] }
tracing = "0.1"
