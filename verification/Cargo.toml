[package]
name = "rig_tap"
version = "0.2.1"
edition = "2021"
publish = false

[dependencies]
async-trait = "=0.1.92"
metrics = "=0.24.6"
rig-compose = "=0.5.0"
rig-core = { version = "=0.37.0", features = ["websocket"] }
serde = { version = "=1.0.229", features = ["derive"] }
serde_json = "=1.0.154"
thiserror = "=2.0.21"
tracing = "=0.1.44"
tracing-subscriber = "=0.3.23"

[dev-dependencies]
tokio = { version = "=1.54.1", features = ["rt", "macros"] }
