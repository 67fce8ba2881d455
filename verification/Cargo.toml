[package]
name = "macro_input"
version = "0.1.0"
edition = "2021"
publish = false

[dependencies]
heck = "=0.3.3"
syn = "=1.0.109"
proc-macro2 = "=1.0.107"
quote = "=1.0.47"
macro-compose = "=0.1.0"
unicode-ident = "=1.0.26"
