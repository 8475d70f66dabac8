[package]
name = "minerva"
version = "0.1.0"
edition = "2021"
publish = false

[dependencies]
postgres-protocol = "=0.6.12"
humantime = "=2.4.0"
humantime-serde = "=1.1.1"
regex = "=1.13.1"
petgraph = "=0.8.3"
serde = { version = "=1.0.229", features = ["derive"] }
serde_json = "=1.0.154"
serde_yaml = "=0.9.34"
glob = "=0.3.4"
tokio = { version = "=1.54.1", features = ["rt-multi-thread", "macros", "time"] }
tokio-postgres = { version = "=0.7.18", features = ["with-serde_json-1"] }
