[package]
name = "glow_app"
version = "0.1.0"
edition = "2021"
publish = false

[dependencies]
env_logger = "=0.11.11"
glow = "=0.18.0"
glutin = "=0.32.3"
khronos-egl = { version = "=6.0.0", features = ["static"] }
raw-window-handle = "=0.6.2"
smithay-client-toolkit = { version = "=0.19.2", default-features = false }
wayland-client = "=0.31.15"
wayland-backend = { version = "=0.3.17", features = ["client_system", "dlopen"] }
wayland-egl = "=0.32.11"
