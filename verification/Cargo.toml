[package]
name = "clone_cgroup"
version = "0.1.0"
edition = "2021"
publish = false

[dependencies]
libc = "0.2"
nix = "0.26"
interprocess = "1"
