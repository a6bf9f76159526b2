[package]
name = "fantasy_vm"
version = "0.1.0"
edition = "2021"
publish = false

[dependencies]
iset = "*"
clap = { version = "*", features = ["derive"] }
libc = "*"
libloading = "*"
path-absolutize = "*"
