[package]
name = "cortex_m0"
version = "0.1.0"
edition = "2021"
publish = false

[dependencies]
volatile = "=0.6.1"
