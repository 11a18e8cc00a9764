[package]
name = "strings"
version = "0.1.0"
edition = "2021"
publish = false

[dev-dependencies]
linked_hash_set = "*"
