[package]
name = "fluorite"
version = "0.1.0"
edition = "2021"
publish = false

[dependencies]
chrono = "=0.4.45"
memmem = "=0.1.1"
priority-queue = "=2.7.0"
spin_sleep = "*"
