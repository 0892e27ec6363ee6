[package]
name = "scxcash"
version = "0.1.0"
edition = "2021"
publish = false

[dependencies]
anyhow = "1"
libbpf-rs = "*"
libc = "0.2"
log = "0.4"
num_cpus = "1"
ratatui = { version = "*", default-features = false }
scx_utils = "*"
serde = { version = "1", features = ["derive"] }
