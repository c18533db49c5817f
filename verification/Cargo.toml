[package]
name = "arcan"
version = "0.1.0"
edition = "2021"
publish = false

[dependencies]
blake3 = "=1.8.7"
sha2 = "=0.10.9"
base64 = "=0.22.1"
rand = "=0.9.5"
regex = "=1.13.1"
glob = "=0.3.4"
walkdir = "=2.5.0"
wait-timeout = "=0.2.1"
serde = { version = "=1.0.229", features = ["derive"] }
serde_json = "=1.0.154"
serde_yaml = "=0.9.34"
dirs = "=6.0.0"
url = "=2.5.8"
chrono = "=0.4.45"
uuid = { version = "=1.29.0", features = ["v4"] }
thiserror = "=2.0.21"
reqwest = { version = "=0.12.28", default-features = false, features = ["blocking", "json", "rustls-tls"] }
lago-core = "=0.3.0"
lago-policy = "=0.3.0"
lago-api = "=0.3.0"
lago-fs = "=0.3.0"
lago-store = "=0.3.0"
praxis-core = "=0.3.0"
praxis-tools = "=0.3.0"
aios-protocol = "=0.3.0"
rmcp = { version = "=3.8.0", default-features = false, features = ["client", "transport-child-process"] }
tokio = { version = "=1.54.1", features = ["rt-multi-thread", "macros", "process", "sync", "time", "io-util"] }
