[package]
name = "mine_captcha"
version = "0.1.0"
edition = "2021"
publish = false

[dependencies]
winit = "=0.30.13"
egui-wgpu = "=0.34.3"
egui-winit = { version = "=0.34.3", default-features = false }
transform-gizmo-egui = "=0.9.0"
nalgebra = { version = "=0.35.0", default-features = false, features = ["std"] }
futures = { version = "=0.3.34", default-features = false, features = ["executor"] }
