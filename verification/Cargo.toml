[package]
name = "cc2640r2f_hal"
version = "0.1.0"
edition = "2021"
publish = false

[dependencies]
cc2650 = "=0.1.1"
embedded-hal = { version = "=0.2.7", features = ["unproven"] }
