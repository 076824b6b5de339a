[package]
name = "lenient"
version = "0.1.0"
edition = "2021"
publish = false

[dependencies]
serde = "1"
serde_json = "1"
tracing = "0.1"
syn = "2"
quote = "1"
proc-macro2 = "1"
