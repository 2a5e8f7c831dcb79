[package]
name = "working_dir"
version = "0.1.0"
edition = "2021"
publish = false

[dependencies]
path_no_alloc = "*"
