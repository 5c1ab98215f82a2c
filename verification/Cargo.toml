[package]
name = "flow_win32"
version = "0.1.0"
edition = "2021"
publish = false

[dependencies]
libloading = "0.6"
log = "0.4"
