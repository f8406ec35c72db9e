[package]
name = "mef2tmf"
version = "0.1.0"
edition = "2021"
publish = false

[dependencies]
meflib = "*"
tmflib = "*"
