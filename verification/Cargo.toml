[package]
name = "guestjs"
version = "0.1.0"
edition = "2021"
publish = false

[dependencies]
bytes = "=1.12.1"
futures = "0.3"
oxc = { version = "=0.143.0", features = ["codegen", "semantic", "transformer"] }
rquickjs = { version = "=0.12.2", features = ["full-async"] }
rquickjs-serde = "=0.6.1"
serde = { version = "1", features = ["derive"] }
serde_json = "=1.0.154"
thiserror = "2"
tokio-util = "=0.7.20"
