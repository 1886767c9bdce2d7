[package]
name = "file_matcher"
version = "0.1.0"
edition = "2021"
publish = false

[dependencies]
regex = "1"
wildmatch = "2"
fs_extra = "1"
