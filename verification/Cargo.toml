[package]
name = "click4loop"
version = "0.1.0"
edition = "2021"
publish = false

[dependencies]
rdev = "0.5"
tokio = { version = "1", features = ["rt-multi-thread", "time", "sync", "macros"] }
