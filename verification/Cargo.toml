[package]
name = "rstutorial"
version = "0.1.0"
edition = "2021"
publish = false

[dependencies]
gstreamer = "0.22"
gstreamer-base = "0.22"
gstreamer-video = "0.22"
once_cell = "1"
