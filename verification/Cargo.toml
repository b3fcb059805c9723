[package]
name = "grpc_test"
version = "0.1.0"
edition = "2021"
publish = false

[dependencies]
anyhow = "=1.0.104"
prost = "=0.6.1"
tokio = { version = "=0.2.25", features = ["macros", "rt-threaded", "stream", "tcp", "time"] }
tonic = "=0.3.1"
