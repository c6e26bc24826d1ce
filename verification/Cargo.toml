[package]
name = "lcu_discovery"
version = "0.1.0"
edition = "2021"
publish = false

[dependencies]
irelia_encoder = "*"
sysinfo = "0.32"
