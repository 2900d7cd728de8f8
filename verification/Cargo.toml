[package]
name = "tarpc"
version = "0.1.0"
edition = "2021"
publish = false

[dependencies]
rand = "0.8"
tokio = { version = "1", default-features = false, features = ["sync", "rt", "time", "macros"] }
futures = "0.3"
pin-project = "1"
anyhow = "1"
log = "0.4"
serde = { version = "1", features = ["derive"] }
tokio-service = "0.1"
static_assertions = "1"
