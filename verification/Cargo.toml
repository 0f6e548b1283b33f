[package]
name = "lfs_error"
version = "0.1.0"
edition = "2021"
publish = false

[dependencies]
defmt = "0.3"
embedded-io = "0.6"
