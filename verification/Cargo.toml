[package]
name = "autosurgeon"
version = "0.1.0"
edition = "2021"
publish = false

[dependencies]
automerge = "0.5"
thiserror = "1"
