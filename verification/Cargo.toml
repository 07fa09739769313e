[package]
name = "colorful-picker"
version = "0.1.0"
edition = "2021"
publish = false

[dependencies]
png = "=0.18.1"
ab_glyph = "=0.2.32"
tiny-skia = "=0.12.0"
kiddo = "=4.2.1"
serde = { version = "=1.0.229", features = ["derive"] }
serde_json = "=1.0.154"
smithay-client-toolkit = { version = "=0.21.1", default-features = false }
wayland-client = "=0.31.15"
zbus = "=5.19.0"
