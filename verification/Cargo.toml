[package]
name = "sysfinder"
version = "0.1.0"
edition = "2021"
publish = false

[dependencies]
colored = "2"
ctrlc = "3"
rayon = "1"
sysinfo = "*"
walkdir = "2"
