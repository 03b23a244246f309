[package]
name = "ref-portals"
version = "1.0.0"
edition = "2021"
publish = false

[dependencies]
log = "0.4"
wyz = "0.2"
