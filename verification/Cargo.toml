[package]
name = "video_shell"
version = "0.1.0"
edition = "2021"
publish = false

[dependencies]
eframe = { version = "0.24", default-features = false }
gstreamer = "0.20"
