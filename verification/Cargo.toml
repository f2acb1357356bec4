[package]
name = "async_test_support"
version = "0.1.0"
edition = "2021"
publish = false

[dependencies]
futures = "0.3"
tokio = "0.1"
tokio-timer = "0.2"
tokio-signal = "0.2"
tokio-executor = "0.1"
libc = "0.2"

[dev-dependencies]
futures-test = "0.3"
