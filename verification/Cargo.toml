[package]
name = "vellum"
version = "0.1.0"
edition = "2021"
publish = false

[dependencies]
clap = { version = "4", features = ["derive"] }
color = "*"
glifo = "*"
kurbo = "*"
parley = "*"
peniko = "*"
pollster = "*"
rustix = { version = "1", features = ["event", "net", "process"] }
serde = { version = "1", features = ["derive"] }
skrifa = "*"
unicode-segmentation = "1"
vello_common = "*"
vello_hybrid = "*"
wayland-client = "*"
wayland-protocols = { version = "*", features = ["client", "staging", "unstable"] }
wayland-protocols-wlr = { version = "*", features = ["client"] }
wgpu = "*"
toml = "*"
