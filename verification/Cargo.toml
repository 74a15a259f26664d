[package]
name = "lila_docker"
version = "0.1.0"
edition = "2021"
publish = false

[dependencies]
cliclack = "*"
local-ip-address = "*"
serde = { version = "1", features = ["derive"] }
serde_json = "1"
toml = "*"
