[package]
name = "sandbox_host"
version = "0.1.0"
edition = "2021"
publish = false

[dependencies]
typemap = "=0.3.3"
libloading = "=0.9.0"
glium = "=0.36.0"
