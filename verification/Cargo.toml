[package]
name = "json_monkey_rs"
version = "0.1.0"
edition = "2021"
publish = false

[dependencies]
serde_json = "*"
rustyline = "*"
