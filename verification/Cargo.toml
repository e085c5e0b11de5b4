[package]
name = "ping_monitor"
version = "0.1.0"
edition = "2021"
publish = false

[dependencies]
chrono = "0.4"
config = "0.13"
ctrlc = "3"
ping-rs = "0.1"
