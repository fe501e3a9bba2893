[package]
name = "rcore"
version = "0.1.0"
edition = "2021"
publish = false

[dependencies]
heapless = "=0.5.6"
xmas-elf = "=0.7.0"
log = "0.4"
