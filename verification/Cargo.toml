[package]
name = "fut_compat"
version = "0.1.0"
edition = "2021"
publish = false

[dependencies]
async-std = { version = "=1.13.2", features = ["unstable"] }
async-trait = "=0.1.92"
futures = "=0.3.34"
tokio = { version = "=1.54.1", features = ["fs", "io-util", "net", "rt"] }
tokio-stream = { version = "=0.1.19", features = ["fs"] }
