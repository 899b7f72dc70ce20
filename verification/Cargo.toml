[package]
name = "zokrates_core"
version = "0.1.0"
edition = "2021"
publish = false

[dependencies]
num-bigint = "=0.2.6"
pest = "=2.9.4"
serde = { version = "=1.0.229", features = ["derive"] }
serde_json = { version = "=1.0.154", features = ["preserve_order"] }
