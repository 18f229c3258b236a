[package]
name = "iced_video"
version = "0.1.0"
edition = "2021"
publish = false

[dependencies]
gstreamer = "=0.20.7"
gstreamer-app = "=0.20.7"
gstreamer-video = "=0.20.7"
iced = { version = "=0.13.1", default-features = false, features = ["tiny-skia", "tokio", "advanced"] }
tokio = { version = "1", default-features = false, features = ["sync"] }
log = "0.4"
