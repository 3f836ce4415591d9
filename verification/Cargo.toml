[package]
name = "terax"
version = "0.1.0"
edition = "2021"
publish = false

[dependencies]
libc = "0.2"
log = "0.4"
nix = { version = "0.29", features = ["signal", "process"] }
tauri = { version = "2", default-features = false }
