[package]
name = "dictation_indicator"
version = "0.1.0"
edition = "2021"
publish = false

[dependencies]
core-graphics-types = "0.2"
core-video = "*"
metal = "*"
objc2 = "0.6"
objc2-app-kit = "0.3"
objc2-foundation = "0.3"
objc2-quartz-core = "0.3"
tracing = "0.1"
