[package]
name = "spawn_memory"
version = "0.1.0"
edition = "2021"
publish = false

[dependencies]
jemalloc-ctl = "*"
jemallocator = "*"
tokio = { version = "*", features = ["rt-multi-thread", "macros", "time"] }
