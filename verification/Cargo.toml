[package]
name = "flip_companion"
version = "0.1.0"
edition = "2021"
publish = false

[dependencies]
anyhow = "1"
async-trait = "0.1"
calloop = "0.14"
clap = { version = "4", features = ["derive"] }
drm = "0.14"
drm-fourcc = "2"
evdev = "0.13"
glob = "0.3"
libc = "0.2"
serde = { version = "1", features = ["derive"] }
serde_json = "1"
smithay = { version = "0.6", default-features = false, features = ["wayland_frontend"] }
sysinfo = "0.33"
tokio = { version = "1", features = ["rt-multi-thread", "macros", "sync", "time", "process", "fs"] }
toml = "0.8"
zbus = "5"
