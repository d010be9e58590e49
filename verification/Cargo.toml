[package]
name = "loom_wm"
version = "0.1.0"
edition = "2021"
publish = false

[dependencies]
bitflags = "2"
dirs = "*"
libc = "0.2"
rustc-hash = "2"
serde = { version = "1", features = ["derive"] }
slotmap = "1"
smallvec = "1"
smithay = { version = "*", default-features = false, features = ["backend_drm", "backend_gbm", "backend_libinput", "backend_session_libseat", "backend_udev", "backend_winit", "renderer_glow", "desktop", "wayland_frontend"] }
smithay-drm-extras = "*"
thiserror = "*"
toml = "*"
tracing = "0.1"
tracing-subscriber = { version = "0.3", features = ["env-filter"] }
