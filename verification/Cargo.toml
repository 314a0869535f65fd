[package]
name = "thermal_governor"
version = "0.1.0"
edition = "2021"
publish = false

[dependencies]
anyhow = "1"
log = "0.4"
num_cpus = "1"
simplelog = "*"
