[package]
name = "pumicite_sr"
version = "0.1.0"
edition = "2021"
publish = false

[dependencies]
ash = "*"
pumicite = "*"
runfiles = "*"
tracing = "*"
objc2 = "*"
objc2-metal = "*"
objc2-metal-fx = "*"
