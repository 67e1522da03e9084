[package]
name = "promkit"
version = "0.1.0"
edition = "2021"
publish = false

[dependencies]
anyhow = "1"
crossterm = "0.27"
radix_trie = "0.2"
unicode-width = "0.1"
