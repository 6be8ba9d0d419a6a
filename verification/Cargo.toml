[package]
name = "pipeline_runner"
version = "0.1.0"
edition = "2021"
publish = false

[dependencies]
anyhow = "=1.0.104"
gstreamer = "0.23"
tokio = { version = "=1.54.1", default-features = false, features = ["sync"] }
tracing = "=0.1.44"
uuid = "=1.29.0"
