[package]
name = "rojo_cli"
version = "0.1.0"
edition = "2021"
publish = false

[dependencies]
clap = "2.27"
env_logger = "0.6"
log = "0.4"
