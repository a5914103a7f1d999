[package]
name = "mycelium"
version = "0.1.0"
edition = "2021"
publish = false

[dependencies]
pci-ids = "*"
mycelium-bitfield = "*"
tracing = "0.1"
