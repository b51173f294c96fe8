[package]
name = "base256emoji"
version = "0.1.0"
edition = "2021"
publish = false

[dependencies]
hash32 = "=0.2.1"
heapless = "=0.7.17"
once_cell = "=1.21.4"
