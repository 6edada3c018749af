[package]
name = "lecsicon"
version = "0.1.0"
edition = "2021"
publish = false

[dependencies]
diesel = { version = "*", features = ["sqlite"] }
hunspell-rs = "*"
inquire = "*"
libsqlite3-sys = { version = "*", features = ["bundled"] }
