[package]
name = "duchess"
version = "0.1.0"
edition = "2021"
publish = false

[dependencies]
noak = "*"
once_cell = "*"
heck = "*"
anyhow = "*"
walkdir = "*"
tempfile = "*"
thiserror = "*"
proc-macro2 = "*"
syn = { version = "*", features = ["full"] }
cargo-emit = "*"
jni-sys = "*"
