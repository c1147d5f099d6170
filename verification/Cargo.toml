[package]
name = "divert"
version = "0.1.0"
edition = "2021"
publish = false

[dependencies]
bitflags = "1.3"
log = "0.4"
thiserror = "1.0"
