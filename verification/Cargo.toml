[package]
name = "mips_ejtag"
version = "0.1.0"
edition = "2021"
publish = false

[dependencies]
bitfield = "0.14"
once_cell = "1"
thiserror = "1"
tracing = "0.1"
