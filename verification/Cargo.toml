[package]
name = "beatrec"
version = "0.1.0"
edition = "2021"
publish = false

[dependencies]
crossbeam-channel = "=0.5.17"
triple_buffer = "=9.0.0"
hound = "=3.5.1"
rfd = "=0.15.4"
