[package]
name = "cargo_bpf"
version = "0.1.0"
edition = "2021"
publish = false

[dependencies]
futures = "*"
hexdump = "*"
redbpf = "*"
tokio = { version = "*", features = ["rt"] }
