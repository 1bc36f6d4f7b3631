[package]
name = "watchbench"
version = "0.1.0"
edition = "2021"
publish = false

[dependencies]
rand = "*"
etcd-client = "*"
tokio = { version = "*", features = ["full"] }
tonic = "*"
serde = { version = "*", features = ["derive"] }
serde_yaml = "*"
chrono = "*"
clap = { version = "*", features = ["derive"] }
