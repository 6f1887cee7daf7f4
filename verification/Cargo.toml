[package]
name = "erudite"
version = "0.1.0"
edition = "2021"
publish = false

[dependencies]
leucite = { version = "=1.0.0", features = ["tokio"] }
regex = "=1.13.1"
thiserror = "=2.0.21"
tmpdir = "=1.0.0"
tokio = { version = "=1.54.1", features = ["full"] }
tracing = "=0.1.44"
