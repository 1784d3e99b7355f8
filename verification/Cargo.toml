[package]
name = "bundler_watch"
version = "0.1.0"
edition = "2021"
publish = false

[dependencies]
dashmap = "*"
itertools = "*"
notify = "*"
sugar_path = "*"
tokio = { version = "*", features = ["rt-multi-thread", "sync", "macros"] }
