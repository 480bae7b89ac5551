[package]
name = "diesel_load_extension"
version = "0.1.0"
edition = "2021"
publish = false

[dependencies]
diesel = { version = "*", default-features = false, features = ["sqlite"] }
libsqlite3-sys = { version = "*", features = ["bundled"] }
thiserror = "*"
