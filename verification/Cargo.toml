[package]
name = "ser_std"
version = "0.1.0"
edition = "2021"
publish = false

[dependencies]
anyhow = "*"
bitmask-enum = "*"
chrono = "*"
esp-idf-svc = "*"
libm = "*"
log = "*"
