[package]
name = "proto-conformance"
version = "0.1.0"
edition = "2021"
publish = false

[dependencies]
bytes = "0.4"
env_logger = "0.4"
log = "0.3"
prost = "0.5"
prost-derive = "0.5"
