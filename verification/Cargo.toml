[package]
name = "scxctl"
version = "0.1.0"
edition = "2021"
publish = false

[dependencies]
scx_loader = "*"
clap = { version = "*", features = ["derive"] }
anyhow = "*"
zbus = "*"
