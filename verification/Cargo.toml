[package]
name = "echo_server"
version = "0.1.0"
edition = "2021"
publish = false

[dependencies]
async-ctrlc = "1"
async-std = "1"
futures = "0.3"
log = "0.4"
pretty_env_logger = "*"
