[package]
name = "image_mirror"
version = "0.1.0"
edition = "2021"
publish = false

[dependencies]
pathdiff = "0.2"
tokio = { version = "1", features = ["sync", "rt", "rt-multi-thread", "macros"] }
image = { version = "*", default-features = false, features = ["jpeg", "png"] }
turbojpeg = { version = "*", features = ["image"] }
notify = "4"
