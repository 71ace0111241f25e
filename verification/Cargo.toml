[package]
name = "prime_dispatch"
version = "0.1.0"
edition = "2021"
publish = false

[dependencies]
vulkano = "0.33"
