[package]
name = "dirsync"
version = "0.1.0"
edition = "2021"
publish = false

[dependencies]
ahash = "0.8"
blake3 = { version = "1", features = ["pure"] }
clap = { version = "4", features = ["derive"] }
lru = "0.12"
notify = "6"
time = { version = "0.3", features = ["formatting", "local-offset"] }
tokio = { version = "1", features = ["fs", "macros", "rt-multi-thread", "sync", "time"] }
tokio-stream = "0.1"
