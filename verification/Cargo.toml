[package]
name = "texture_sharing"
version = "0.1.0"
edition = "2021"
publish = false

[dependencies]
gleam = "*"
glutin = "0.29"
image = { version = "*", default-features = false, features = ["png"] }
ipc-channel = "*"
nix = { version = "*", features = ["process", "signal"] }
libc = "0.2"
io-surface = "*"
cgl = "*"
core-foundation = "*"
