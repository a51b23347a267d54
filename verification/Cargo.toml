[package]
name = "transponder"
version = "0.1.0"
edition = "2021"
publish = false

[dependencies]
clap = "2"
env_logger = "0.4"
futures = "0.1"
hyper = "0.10"
log = "0.3"
net2 = "0.2"
threadpool = "1"
tokio-core = "0.1"
