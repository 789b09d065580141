[package]
name = "qubicon_vulkan"
version = "0.1.0"
edition = "2021"
publish = false

[dependencies]
ash = "0.37"
arrayvec = "0.7"
bitvec = "1"
bitflags = "2"
smallvec = "1"
thiserror = "1"
quote = "1"
proc-macro2 = "1"
