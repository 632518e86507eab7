[package]
name = "hardware_query"
version = "0.1.0"
edition = "2021"
publish = false

[dependencies]
tokio = { version = "*", features = ["rt", "rt-multi-thread", "sync", "time", "macros"] }
sysinfo = "*"
num_cpus = "*"
serde = { version = "*", features = ["derive"] }
serde_json = "*"
thiserror = "*"
