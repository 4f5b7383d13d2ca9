[package]
name = "carburetor"
version = "0.1.0"
edition = "2021"
publish = false

[dependencies]
log = "0.4"
rppal = "0.14"
simple-signal = "1.1"
sys-info = "0.9"
ws = "0.9"
