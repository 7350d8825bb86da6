[package]
name = "sqruff_lib_dialects"
version = "0.1.0"
edition = "2021"
publish = false

[dependencies]
sqruff-lib-core = "*"
itertools = "*"
