[package]
name = "wasm_fault"
version = "0.1.0"
edition = "2021"
publish = false

[dependencies]
libc = "0.2"
nix = "0.15"
