[package]
name = "lpc55_hal"
version = "0.1.0"
edition = "2021"
publish = false

[dependencies]
lpc55-pac = "=0.5.0"
embedded-hal = { version = "=0.2.7", features = ["unproven"] }
