[package]
name = "novax_executor"
version = "0.1.0"
edition = "2021"
publish = false

[dependencies]
multiversx-sc-codec = "*"
multiversx-sdk = "*"
tokio = { version = "1", features = ["rt", "sync", "time"] }
proc-macro2 = "1"
quote = "1"
rust-format = "*"
