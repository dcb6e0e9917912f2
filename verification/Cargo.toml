[package]
name = "arduino_mcp4161"
version = "0.1.0"
edition = "2021"
publish = false

[dependencies]
embedded-hal = "0.2"
nb = "1"
panic-halt = "0.2"
ufmt = "0.2"
