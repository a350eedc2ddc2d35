[package]
name = "pyobject"
version = "0.1.0"
edition = "2021"
publish = false

[dependencies]
num-bigint = "0.2"
num-complex = "0.2"
num-traits = "0.2"
