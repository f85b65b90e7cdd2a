[package]
name = "standings"
version = "0.1.0"
edition = "2021"
publish = false

[dependencies]
chrono = "0.4"
hyper = { version = "0.14", default-features = false, features = ["client", "http1", "tcp"] }
serde = "1"
serde_derive = "1"
serde_json = "1"
tokio = { version = "1", default-features = false, features = ["rt", "macros"] }
