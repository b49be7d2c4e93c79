[package]
name = "lv8"
version = "0.1.0"
edition = "2021"
publish = false

[dependencies]
anyhow = "=1.0.104"
cap-std = "=3.4.6"
clap = { version = "=4.6.7", features = ["derive"] }
tokio = { version = "=1.53.2", features = ["rt", "rt-multi-thread"] }
v8 = "=152.2.0"
wasi-common = "=46.0.3"
wasmtime = { version = "=46.0.3", default-features = false, features = ["std"] }
wiggle = "=46.0.3"
