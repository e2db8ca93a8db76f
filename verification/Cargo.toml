[package]
name = "acoustic_field_viewer"
version = "0.1.0"
edition = "2021"
publish = false

[dependencies]
autd3-core = "1"
camera_controllers = "0.32.0"
gfx = "0.18.3"
gfx_device_gl = "0.16.2"
glutin = "0.26.0"
quaternion = "0.4.1"
scarlet = "1.1.0"
shader_version = "0.7.0"
vecmath = "1.0.0"
