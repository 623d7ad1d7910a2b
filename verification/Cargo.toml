[package]
name = "pca9956b_cli"
version = "0.1.0"
edition = "2021"
publish = false

[dependencies]
clap = "2"
env_logger = "0.6"
hyper = "0.11"
log = "0.4"
ncurses = "5"
signal-hook = "0.1"
tokio-core = "0.1"
uuid = { version = "0.7", features = ["v4"] }
