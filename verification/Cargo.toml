[package]
name = "aeron"
version = "0.1.0"
edition = "2021"
publish = false

[dependencies]
tokio = { version = "*", features = ["rt", "macros", "time"] }
color-eyre = "*"
