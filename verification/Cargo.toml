[package]
name = "evalbridge"
version = "0.1.0"
edition = "2021"
publish = false

[dependencies]
evalexpr = "=11.3.1"
