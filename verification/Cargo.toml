[package]
name = "multiruntime_streams"
version = "0.0.1"
edition = "2021"
publish = false

[dependencies]
futures-core = "0.3"
futures-util = "0.3"
num_cpus = "1"
once_cell = "1"
tokio = { version = "1", features = ["rt", "rt-multi-thread", "sync", "time", "net"] }
tokio-stream = "0.1"
