[package]
name = "anydir"
version = "0.1.0"
edition = "2021"
publish = false

[dependencies]
include_dir = "0.7"
proc-macro2 = "1"
quote = "1"
syn = "2"
