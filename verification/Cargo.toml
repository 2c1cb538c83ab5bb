[package]
name = "trace_conformance"
version = "0.1.0"
edition = "2021"
publish = false

[dependencies]
cairo-vm = "*"
csv = "1"
