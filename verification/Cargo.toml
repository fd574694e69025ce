[package]
name = "simple_video"
version = "0.1.0"
edition = "2021"
publish = false

[dependencies]
failure = "0.1"
gstreamer = "0.16"
gstreamer-app = "0.16"
