[package]
name = "capacity_builder"
version = "0.1.0"
edition = "2021"
publish = false

[dependencies]
itoa = "1"
ecow = "*"
hipstr = "*"
