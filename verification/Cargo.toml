[package]
name = "cors_proxy"
version = "0.1.0"
edition = "2021"
publish = false

[dependencies]
actix-web = "4"
env_logger = "*"
http = "*"
log = "0.4"
reqwest = "*"
url = "2"
