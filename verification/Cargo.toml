[package]
name = "cosmic_connect_plugins"
version = "0.1.0"
edition = "2021"
publish = false

[dependencies]
ashpd = { version = "=0.13.13", features = ["screencast"] }
async-trait = "=0.1.92"
base64 = "=0.22.1"
chrono = "=0.4.45"
image = { version = "=0.25.10", default-features = false }
lz4 = "=1.28.1"
mouse-keyboard-input = "=0.9.1"
nix = { version = "=0.29.0", features = ["fs"] }
openh264 = "=0.6.6"
serde = { version = "=1.0.229", features = ["derive"] }
serde_json = "=1.0.154"
smithay-client-toolkit = { version = "=0.21.1", default-features = false }
tiny-skia = "=0.12.0"
tokio = { version = "=1.54.1", features = ["full"] }
tracing = "=0.1.44"
wayland-client = "=0.31.15"
zbus = { version = "=5.19.0", default-features = false, features = ["tokio"] }
