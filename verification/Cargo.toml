[package]
name = "antenna_deploy"
version = "0.1.0"
edition = "2021"
publish = false

[dependencies]
failure = "0.1"
kubos-app = "*"
log = "0.4"
serde_json = "1"
