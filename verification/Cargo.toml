[package]
name = "location_manager"
version = "0.1.0"
edition = "2021"
publish = false

[dependencies]
tokio = { version = "1", features = ["sync", "time", "fs", "rt", "rt-multi-thread", "macros"] }
notify = "5"
thiserror = "1"
once_cell = "1"
futures = "0.3"
tracing = "0.1"
chrono = "0.4"
