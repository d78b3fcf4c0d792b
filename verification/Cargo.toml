[package]
name = "lazy_attribute"
version = "0.1.0"
edition = "2021"
publish = false

[dependencies]
syn = { version = "2", features = ["full"] }
quote = "1"
proc-macro2 = "1"
proc-macro-crate = "*"
once_cell = "1"
async-once-cell = "*"
