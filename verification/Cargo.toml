[package]
name = "tokio_rusqlite"
version = "0.1.0"
edition = "2021"
publish = false

[dependencies]
crossbeam-channel = "*"
rusqlite = { version = "*", features = ["bundled"] }
tokio = { version = "*", features = ["sync"] }
