[package]
name = "location_traits"
version = "0.1.0"
edition = "2021"
publish = false

[dependencies]
sp-std = "=14.0.0"
staging-xcm = "*"
