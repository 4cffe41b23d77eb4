[package]
name = "aulas"
version = "0.1.0"
edition = "2021"
publish = false

[dependencies]
scapegoat = "=2.3.0"
tokio = { version = "=1.53.2", features = ["rt", "rt-multi-thread", "sync", "time", "macros"] }
micromath = { version = "=2.1.0", features = ["statistics", "vector"] }
serde = { version = "=1.0.229", default-features = false, features = ["derive"] }
serde-json-core = "=0.6.0"
heapless = "=0.8.0"
syn = "=2.0.119"
quote = "=1.0.47"
proc-macro2 = "=1.0.107"
plotters = "=0.3.7"
