[package]
name = "mesh_buffers"
version = "0.1.0"
edition = "2021"
publish = false

[dependencies]
thiserror = "*"
glam = "*"
log = "*"
