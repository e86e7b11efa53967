[package]
name = "workload_configuration"
version = "0.1.0"
edition = "2021"
publish = false

[dependencies]
anyhow = "1"
move-core-types = "*"
