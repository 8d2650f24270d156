[package]
name = "vscodeconfigurator"
version = "0.1.0"
edition = "2021"
publish = false

[dependencies]
clap = { version = "4", features = ["derive"] }
clap_complete = "4"
crossterm = "*"
regex-lite = "0.1"
serde_json = "1"
