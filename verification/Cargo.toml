[package]
name = "cube_native"
version = "0.1.0"
edition = "2021"
publish = false

[dependencies]
convert_case = "0.6"
log = "0.4"
pyo3 = "0.20"
neon = "1"
tokio = { version = "1", features = ["sync", "macros", "rt", "time"] }
tokio-util = { version = "0.7", features = ["time"] }
tokio-stream = "0.1"
futures = "0.3"
futures-timer = "3"
