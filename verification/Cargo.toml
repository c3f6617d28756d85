[package]
name = "traffic_runner"
version = "0.1.0"
edition = "2021"
publish = false

[dependencies]
clap = "*"
flume = "*"
tokio = { version = "*", features = ["rt-multi-thread", "macros", "process", "time"] }
