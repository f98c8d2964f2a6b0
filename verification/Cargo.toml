[package]
name = "bytecode_vm"
version = "0.1.0"
edition = "2021"
publish = false

[dependencies]
stylus-sdk = "=0.6.1"
alloy-primitives = "=0.7.6"
ruint = "=1.12.3"
