[package]
name = "theme"
version = "0.1.0"
edition = "2021"
publish = false

[dependencies]
glob = "0.3"
ansiterm = "0.12"
log = "0.4"
number_prefix = "0.4"
