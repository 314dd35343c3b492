[package]
name = "process_refresh_plan"
version = "0.1.0"
edition = "2021"
publish = false

[dependencies]
bitflags = "2"
