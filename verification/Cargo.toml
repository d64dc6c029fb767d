[package]
name = "zluda_exstar"
version = "0.1.0"
edition = "2021"
publish = false

[dependencies]
dtor = "=1.0.6"
libloading = "=0.9.0"
rustc-hash = "2"
