[package]
name = "verso_painter"
version = "0.1.0"
edition = "2021"
publish = false

[dependencies]
gleam = "*"
log = "*"
thiserror = "*"
winit = "*"
