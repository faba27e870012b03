[package]
name = "tokio-debouncer"
version = "0.1.0"
edition = "2021"
publish = false

[dependencies]
parking_lot = "=0.12.5"
tokio = { version = "=1.54.1", features = ["sync", "time"] }

[dev-dependencies]
tokio = { version = "=1.54.1", features = ["rt", "test-util"] }
