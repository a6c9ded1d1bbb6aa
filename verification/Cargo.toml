[package]
name = "matter"
version = "0.1.0"
edition = "2021"

[dependencies]
log = "0.4"
num = "0.4"
num-derive = "0.3"
num-traits = "0.2"
