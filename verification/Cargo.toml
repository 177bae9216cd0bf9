[package]
name = "telephony"
version = "0.1.0"
edition = "2021"
publish = false

[dependencies]
pjproject-sys = "1.0.0"
thiserror = "1"
