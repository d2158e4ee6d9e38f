[package]
name = "piri"
version = "0.1.0"
edition = "2021"
publish = false

[dependencies]
anyhow = "*"
niri-ipc = "*"
regex = "*"
sap = "*"
tracing = "*"
tracing-subscriber = "*"
