[package]
name = "render_tree"
version = "0.1.0"
edition = "2021"
publish = false

[dependencies]
log = "0.4"
tiny-skia = { version = "0.9.0", default-features = false, features = ["std"] }
usvg = { version = "0.32.0", default-features = false }
