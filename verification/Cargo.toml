[package]
name = "m68k"
version = "0.1.0"
edition = "2021"

[dependencies]
bitflags = "1.3.2"
