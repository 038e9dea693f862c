[package]
name = "kfpl"
version = "1.2.0"
edition = "2021"
publish = false

[dependencies]
anyhow = "*"
clap = "*"
dialoguer = "*"
log = "*"
simple_logger = "*"
tokio = { version = "*", features = ["full"] }
yansi = "*"
