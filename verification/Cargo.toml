[package]
name = "rusty_ssr"
version = "0.1.0"
edition = "2021"
publish = false

[dependencies]
dashmap = "*"
num_cpus = "*"
serde_json = "*"
serde = { version = "*", features = ["derive"] }
tokio = { version = "*", features = ["rt-multi-thread", "sync", "time", "net", "macros"] }
lru = "*"
parking_lot = "*"
thread_local = "*"
core_affinity = "*"
axum = "*"
tower-http = { version = "*", features = ["fs", "trace"] }
tracing = "*"
tracing-subscriber = "*"
reqwest = { version = "*", default-features = false }
futures = "*"
