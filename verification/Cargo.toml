[package]
name = "chumsky_proc"
version = "0.1.0"
edition = "2021"
publish = false

[dependencies]
proc-macro2 = "1"
chumsky = "0.9"
