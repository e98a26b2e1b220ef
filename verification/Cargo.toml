[package]
name = "verso"
version = "0.1.0"
edition = "2021"
publish = false

[dependencies]
crossbeam-channel = "0.5"
env_logger = "0.11"
log = "0.4"
winit = "0.30"
