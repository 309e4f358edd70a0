[package]
name = "shaderpad"
version = "0.1.0"
edition = "2021"
publish = false

[dependencies]
clipboard-rs = "*"
glium = "0.34"
imgui = "0.12"
imgui-glium-renderer = "0.12"
imgui-winit-support = "0.12"
winit = "0.29"
