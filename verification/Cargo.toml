[package]
name = "deadpool"
version = "0.1.0"
edition = "2021"
publish = false

[dependencies]
num_cpus = "*"
tokio = { version = "*", features = ["rt", "rt-multi-thread", "time", "sync", "macros"] }
async-std = "*"
blocking = "*"
async-io = "*"
futures-lite = "*"
serde = { version = "*", features = ["derive"] }
