[package]
name = "portscan"
version = "0.1.0"
edition = "2021"
publish = false

[dependencies]
indicatif = "*"
tokio = { version = "*", features = ["rt-multi-thread", "macros", "net", "time", "sync"] }
