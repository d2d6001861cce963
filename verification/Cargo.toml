[package]
name = "path_filter"
version = "0.1.0"
edition = "2021"
publish = false

[dependencies]
glob = "*"
log = "*"
colored = "*"
