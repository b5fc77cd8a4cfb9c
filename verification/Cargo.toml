[package]
name = "uiohook_rs"
version = "0.1.0"
edition = "2021"
publish = false

[dependencies]
lazy_static = "1.4"
libc = "0.2"
thiserror = "1.0"
