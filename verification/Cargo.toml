[package]
name = "macro_railroad_ext"
version = "0.1.0"
edition = "2021"
publish = false

[dependencies]
macro_railroad = "=0.1.9"
railroad = { version = "=0.3.11", default-features = false }
syn = { version = "=2.0.119", default-features = false }
rand = "=0.7.3"
stdweb = "=0.4.20"
