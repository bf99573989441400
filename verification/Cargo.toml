[package]
name = "merdia"
version = "0.1.0"
edition = "2021"
publish = false

[dependencies]
anyhow = "1"
byte-pool = "0.2"
bytecodec = "=0.5.0"
drm = "=0.9.0"
futures-util = "0.3"
gbm = "=0.12.0"
glow = "=0.12.3"
glutin = { version = "=0.30.10", default-features = false, features = ["egl"] }
gstreamer = "0.20"
gstreamer-app = "0.20"
gstreamer-gl = "0.20"
gstreamer-gl-egl = "0.20"
once_cell = "1"
raw-window-handle = "0.5"
stun_codec = "=0.4.0"
thiserror = "1"
tokio = { version = "1", features = ["full"] }
tracing = "0.1"
tracing-subscriber = "0.3"
