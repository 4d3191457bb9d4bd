[package]
name = "applog"
version = "0.1.0"
edition = "2021"
publish = false

[dependencies]
simplelog = "0.11"
