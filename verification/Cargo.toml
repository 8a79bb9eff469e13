[package]
name = "omnipool_core"
version = "0.1.0"
edition = "2021"
publish = false

[dependencies]
sp-arithmetic = "*"
primitive-types = "*"
