[package]
name = "douyin_dl"
version = "0.1.0"
edition = "2021"
publish = false

[dependencies]
anyhow = "*"
clap = { version = "*", features = ["derive"] }
futures = "*"
json = "*"
pbr = "*"
reqwest = { version = "*", default-features = false }
tokio = { version = "*", features = ["full"] }
