[package]
name = "smolder"
version = "0.1.0"
edition = "2021"
publish = false

[dependencies]
ash = "*"
glfw = "*"
libc = "*"
log = "*"
env_logger = "*"
