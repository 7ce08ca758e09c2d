[package]
name = "proj_lite"
version = "0.1.0"
edition = "2021"
publish = false

[dependencies]
geo-traits = "*"
thiserror = "*"
wasm-bindgen = "*"
libsqlite3-sys = "*"
link-cplusplus = "*"

[dev-dependencies]
wkt = "*"
