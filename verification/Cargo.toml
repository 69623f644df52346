[package]
name = "dialect_functions"
version = "0.1.0"
edition = "2021"
publish = false

[dependencies]
arrow = { version = "=59.3.1", default-features = false }
datafusion = { version = "=55.2.0", default-features = false }
log = "=0.4.34"
