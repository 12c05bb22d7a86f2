[package]
name = "embassy_daq"
version = "0.1.0"
edition = "2021"
publish = false

[dependencies]
bxcan = "=0.7.0"
