[package]
name = "gobject_core"
version = "0.1.0"
edition = "2021"
publish = false

[dependencies]
heck = "0.4"
syn = { version = "1", features = ["full", "extra-traits"] }
quote = "1"
proc-macro2 = "1"
darling = "0.14"
