[package]
name = "ns_core"
version = "0.1.0"
edition = "2021"
publish = false

[dependencies]
libm = "0.2"
num = "0.4"
ndarray = "0.15"
log = "0.4"
env_logger = "0.10"
flume = "0.11"
thiserror = "1"
