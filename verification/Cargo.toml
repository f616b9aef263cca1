[package]
name = "irq_mutex"
version = "0.1.0"
edition = "2021"
publish = false

[dependencies]
spin = "0.5.2"
x86_64 = { version = "*", default-features = false, features = ["instructions"] }
