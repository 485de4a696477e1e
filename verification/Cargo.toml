[package]
name = "mik"
version = "0.1.0"
edition = "2021"
publish = false

[dependencies]
uuid = { version = "=1.29.0", features = ["v4"] }
blake3 = "=1.8.7"
flate2 = "=1.1.10"
percent-encoding = "=2.3.2"
sysinfo = "=0.40.1"
num_cpus = "=1.17.0"
chrono = "=0.4.45"
toml = "=0.8.23"
serde = { version = "=1.0.229", features = ["derive"] }
serde_json = "=1.0.154"
anyhow = "=1.0.104"
tokio = { version = "=1.54.1", features = ["net", "time", "rt", "sync", "signal", "fs", "process", "io-util"] }
reqwest = { version = "=0.12.28", default-features = false, features = ["http2"] }
hyper = { version = "=1.12.0", features = ["server", "http1", "http2"] }
hyper-util = { version = "=0.1.21", features = ["tokio", "server-auto"] }
http-body-util = "=0.1.5"
bytes = "=1.12.1"
metrics = "*"
dirs = "*"
