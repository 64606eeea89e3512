[package]
name = "stdio_peer"
version = "0.1.0"
edition = "2021"
publish = false

[dependencies]
futures = "0.1"
tokio-core = "0.1"
tokio-io = "0.1"
tokio-file-unix = "0.5"
tokio-signal = "0.1"
tokio-stdin-stdout = "0.1"
