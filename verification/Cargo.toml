[package]
name = "hello_triangle"
version = "0.1.0"
edition = "2021"
publish = false

[dependencies]
ash = { version = "0.37", default-features = false, features = ["loaded"] }
glfw = "0.47"
winapi = { version = "0.3", features = ["libloaderapi"] }
