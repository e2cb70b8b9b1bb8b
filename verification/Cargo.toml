[package]
name = "autospy"
version = "0.1.0"
edition = "2021"
publish = false

[dependencies]
async-channel = "2"
proc-macro2 = "1"
quote = "1"
syn = { version = "2", features = ["full"] }

[dev-dependencies]
const-default = "1"
