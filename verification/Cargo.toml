[package]
name = "tool_reconciler"
version = "0.1.0"
edition = "2021"
publish = false

[dependencies]
anyhow = "1"
owo-colors = "4"
serde = "1"
tracing = "0.1"
url = "2"
