[package]
name = "git-version"
version = "0.3.9"
edition = "2021"
publish = false

[dependencies]
proc-macro2 = "1"
quote = "1"
syn = "2"
