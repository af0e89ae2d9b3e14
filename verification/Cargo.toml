[package]
name = "rig_tasks"
version = "0.1.0"
edition = "2021"
publish = false

[dependencies]
async-stream = "=0.3.6"
chrono = "=0.4.45"
futures = "=0.3.34"
rmcp = { version = "=3.8.0", default-features = false, features = ["client"] }
serde = { version = "=1.0.229", features = ["derive"] }
serde_json = "=1.0.154"
tokio = { version = "=1.54.1", features = ["sync", "time", "rt", "macros"] }
tracing = "=0.1.44"
tracing-futures = { version = "=0.2.5", features = ["futures-03"] }
