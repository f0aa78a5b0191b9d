[package]
name = "buttre_platform"
version = "0.1.0"
edition = "2021"
publish = false

[dependencies]
image = { version = "=0.25.10", default-features = false, features = ["png"] }
dirs = "=7.0.0"
notify = "=8.2.1"
anyhow = "=1.0.104"
tracing = "=0.1.44"
tracing-subscriber = "=0.3.23"
zbus = "5"
tokio = { version = "=1.54.1", features = ["sync", "rt"] }
