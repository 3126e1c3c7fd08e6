[package]
name = "rx_engine"
version = "0.1.0"
edition = "2021"
publish = false

[dependencies]
itertools = "=0.15.0"
gl = "=0.14.0"
glfw = { version = "=0.59.0", default-features = false, features = ["raw-window-handle-v0-6"] }
nalgebra = "=0.35.0"
nalgebra-glm = "=0.21.0"
specs = "=0.20.0"
specs-derive = "=0.4.1"
tobj = "=4.0.5"
rand = "=0.10.3"
