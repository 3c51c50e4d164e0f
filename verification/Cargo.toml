[package]
name = "wgpu_hartree_fock"
version = "0.1.0"
edition = "2021"
publish = false

[dependencies]
wgpu = "23"
bytemuck = { version = "1", features = ["derive"] }
flume = "0.11"
pollster = "0.3"
nalgebra = "0.33"
