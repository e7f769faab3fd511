[package]
name = "fmtlog"
version = "0.1.0"
edition = "2021"
publish = false

[dependencies]
chrono = "=0.4.45"
log = { version = "=0.4.34", features = ["std"] }
serde = { version = "=1.0.229", features = ["derive"] }
serde_json = "=1.0.154"
serde_yaml = "=0.9.34"
thread_local = "=1.1.10"
toml = "=0.8.23"

[dev-dependencies]
colored = "=2.2.0"
