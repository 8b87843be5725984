[package]
name = "ng_core"
version = "0.1.0"
edition = "2021"
publish = false

[dependencies]
regex = "=1.13.1"
cargo_toml = "=1.0.1"
libc = "=0.2.191"
errno = "=0.3.14"
nix = "=0.26.4"
log = "=0.4.34"
once_cell = "=1.21.4"
spin_sleep = "=1.3.3"
winit = "=0.28.7"
copypasta = "=0.8.2"
surfman = "0.6"
