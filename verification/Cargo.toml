[package]
name = "batch_executor"
version = "0.1.0"
edition = "2021"
publish = false

[dependencies]
primitive-types = "0.12"
tokio = { version = "1", features = ["sync", "rt"] }
metrics = "0.21"
tracing = "0.1"
async-trait = "0.1"
once_cell = "1"
