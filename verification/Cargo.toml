[package]
name = "region_select"
version = "0.1.0"
edition = "2021"
publish = false

[dependencies]
anyhow = "=1.0.104"
bardecoder = "=0.5.0"
futures = "=0.3.34"
image = "=0.24.9"
libc = "=0.2.190"
smithay-client-toolkit = { version = "=0.19.2", default-features = false }
wayland-client = "=0.31.15"
zbus = "=4.4.0"
