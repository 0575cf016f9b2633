[package]
name = "desktop_events"
version = "0.1.0"
edition = "2021"
publish = false

[dependencies]
com = { version = "=0.6.0", features = ["production"] }
crossbeam-channel = "=0.5.17"
