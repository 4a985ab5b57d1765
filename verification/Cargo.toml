[package]
name = "iced_ui"
version = "0.1.0"
edition = "2021"
publish = false

[dependencies]
chrono = { version = "=0.4.45", default-features = false, features = ["clock", "std"] }
iced = { version = "=0.14.0", default-features = false, features = ["advanced", "tiny-skia", "x11", "svg", "image", "thread-pool"] }
resvg = "=0.49.0"
usvg = "=0.49.0"
tiny-skia = "=0.12.0"
