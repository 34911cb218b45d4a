[package]
name = "ageis_core"
version = "0.1.0"
edition = "2021"
publish = false

[dependencies]
dunce = "*"
tokio = { version = "*", features = ["fs", "io-std", "io-util", "macros", "process", "rt-multi-thread", "sync"] }
tokio-stream = "*"
clap = { version = "*", features = ["derive"] }

[dev-dependencies]
tempfile = "*"
