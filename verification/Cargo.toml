[package]
name = "operator_node"
version = "0.1.0"
edition = "2021"
publish = false

[dependencies]
hex = "0.4"
alloy-primitives = { version = "1", features = ["k256"] }
serde = { version = "1", features = ["derive"] }
serde_json = "1"
serde_yaml = "0.9"
tokio = { version = "1", features = ["rt-multi-thread", "macros", "sync", "time"] }
tracing = "0.1"
actix-web = { version = "4", default-features = false, features = ["macros"] }
