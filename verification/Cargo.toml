[package]
name = "simavr_sim"
version = "0.1.0"
edition = "2021"
publish = false

[dependencies]
simavr-sys = "*"
tempfile = "*"
vsprintf = "*"
