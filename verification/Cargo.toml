[package]
name = "prio_gate"
version = "0.1.0"
edition = "2021"
publish = false

[dependencies]
kspin = { version = "=0.1.1", features = ["smp"] }
