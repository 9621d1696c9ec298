[package]
name = "rust_kernel"
version = "0.1.0"
edition = "2021"
publish = false

[dependencies]
anstyle-parse = "*"
pci-ids = "*"
spin = "*"
