[package]
name = "snappers"
version = "0.1.0"
edition = "2021"
publish = false

[dependencies]
anyhow = "*"
bytemuck = { version = "*", features = ["derive"] }
cairo-rs = "*"
chrono = "*"
clap = { version = "*", features = ["derive"] }
directories = "*"
image = { version = "*", default-features = false, features = ["png"] }
libwayshot = "*"
notify-rust = "*"
pango = "*"
pangocairo = "*"
pollster = "*"
raw-window-handle = "*"
serde = { version = "*", features = ["derive"] }
smithay-client-toolkit = "*"
toml = "*"
tracing = "*"
tracing-subscriber = { version = "*", features = ["env-filter"] }
wayland-client = "*"
wgpu = { version = "*", default-features = false, features = ["std", "wgsl", "vulkan"] }
wl-clipboard-rs = "*"
