[package]
name = "build_deps"
version = "0.1.0"
edition = "2021"
rust-version = "1.95"
publish = false

[dependencies]
cargo = "*"
cargo-util = "*"
clap = "*"
