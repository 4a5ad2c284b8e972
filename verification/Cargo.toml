[package]
name = "measured"
version = "0.1.0"
edition = "2021"
publish = false

[dependencies]
metrics = "0.24"
proc-macro2 = "1"
quote = "1"
syn = { version = "2", features = ["full"] }
