[package]
name = "bloom_filter"
version = "0.1.0"
edition = "2021"
publish = false

[dependencies]
murmur3 = "*"
