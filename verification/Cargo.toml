[package]
name = "ibapi"
version = "0.1.0"
edition = "2021"
publish = false

[dependencies]
log = "0.4"
time = { version = "0.3", features = ["formatting"] }
time-tz = "2.0"
tokio = { version = "1", features = ["rt", "sync"] }
