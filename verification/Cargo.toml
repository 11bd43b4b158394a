[package]
name = "rtsp_pipeline"
version = "0.1.0"
edition = "2021"
publish = false

[dependencies]
gstreamer = "*"
gstreamer-app = "*"
glib = "*"
futures = "*"
anyhow = "*"
derive_more = "*"
