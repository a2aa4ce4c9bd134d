[package]
name = "serial_bevy"
version = "0.1.0"
edition = "2021"
publish = false

[dependencies]
chrono = "*"
encoding_rs = "*"
tokio = { version = "*", features = ["rt-multi-thread", "sync", "io-util", "time", "macros"] }
tokio-serial = "*"
