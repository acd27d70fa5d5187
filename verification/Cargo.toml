[package]
name = "iqos_core"
version = "0.1.0"
edition = "2021"
publish = false

[dependencies]
anyhow = "*"
btleplug = "*"
futures = "*"
rustyline = "*"
tokio = { version = "*", features = ["rt-multi-thread", "macros", "sync"] }
uuid = "*"
