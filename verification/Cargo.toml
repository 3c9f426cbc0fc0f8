[package]
name = "deadline_timer"
version = "0.1.0"
edition = "2021"
publish = false

[dependencies]
anyhow = "1"
tokio = { version = "1", default-features = false, features = ["macros", "rt", "rt-multi-thread", "sync", "time"] }

[dev-dependencies]
tokio = { version = "1", default-features = false, features = ["rt", "sync", "time", "test-util"] }
