[package]
name = "pairing_gadget"
version = "0.1.0"
edition = "2021"
publish = false

[dependencies]
halo2curves = "*"
