[package]
name = "vkinit"
version = "0.1.0"
edition = "2021"
publish = false

[dependencies]
ash = "0.38"
ash-window = "0.13"
itertools = "0.14"
log = "0.4"
raw-window-handle = "0.6"
thiserror = "2"
