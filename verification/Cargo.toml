[package]
name = "cilium_map_viewer"
version = "0.1.0"
edition = "2021"
publish = false

[dependencies]
anyhow = "1"
crossterm = "0.27"
libbpf-rs = "0.21"
libbpf-sys = "1"
ratatui = "0.23"
sysinfo = "0.29"
