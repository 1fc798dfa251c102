[package]
name = "scoreboard"
version = "0.1.0"
edition = "2021"
publish = false

[dependencies]
nannou = { version = "0.19", default-features = false }
nannou_osc = "0.19"
