[package]
name = "engine"
version = "0.1.0"
edition = "2021"
publish = false

[dependencies]
image = { version = "0.25", default-features = false, features = ["jpeg", "png", "webp", "tiff"] }
fast_image_resize = "5"
img-parts = "0.3"
kamadak-exif = "*"
moxcms = "*"
oxipng = { version = "9", default-features = false }
ravif = { version = "0.11", default-features = false }
rgb = "0.8"
rayon = "1"
clap = { version = "4", features = ["derive"] }
serde = { version = "1", features = ["derive"] }
