[package]
name = "vcs_bootstrap"
version = "0.1.0"
edition = "2021"
publish = false

[dependencies]
git2 = { version = "=0.21.0", default-features = false }
cargo-util = "=0.2.21"
url = "=2.5.8"
