[package]
name = "spire_seeds"
version = "0.1.0"
edition = "2021"
publish = false

[dependencies]
libgdx-xs128 = "*"
