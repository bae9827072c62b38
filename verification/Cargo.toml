[package]
name = "ttrpc_benchmark"
version = "0.1.0"
edition = "2021"
publish = false

[dependencies]
ttrpc = "0.8"
tokio = { version = "1", features = ["rt-multi-thread", "macros", "time"] }
protobuf = "3"
