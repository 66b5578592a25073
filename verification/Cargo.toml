[package]
name = "render_loop"
version = "0.1.0"
edition = "2021"
publish = false

[dependencies]
gfx-hal = "0.6"
gfx-backend-vulkan = "0.6"
shaderc = "0.7"
winit = "0.22"
