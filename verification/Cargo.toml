[package]
name = "netsim"
version = "0.1.0"
edition = "2021"
publish = false

[dependencies]
async-std = "1"
async-timer = "0.7"
byteorder = "1"
bytes = "0.5"
env_logger = "0.7"
futures = "0.3"
libc = "0.2"
rand = "0.7"
smol = "0.1"
thiserror = "1"
