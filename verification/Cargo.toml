[package]
name = "entunnel"
version = "0.1.0"
edition = "2021"
publish = false

[dependencies]
anyhow = "1"
bytes = "1"
clap = { version = "=3.2.25", features = ["derive"] }
env_logger = "0.10"
futures = "0.3"
log = "0.4"
tokio = { version = "1", features = ["rt", "net", "io-util", "sync", "signal", "process", "macros", "time"] }
tokio-util = { version = "=0.7.19", features = ["io", "io-util"] }
tun = { version = "=0.5.5", features = ["async"] }
