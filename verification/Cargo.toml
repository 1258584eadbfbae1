[package]
name = "audioshare_core"
version = "0.1.0"
edition = "2021"
publish = false

[dependencies]
get_if_addrs = "*"
serde = { version = "*", features = ["derive"] }
serde_json = "*"
directories = "*"
tokio = { version = "*", features = ["sync"] }
