[package]
name = "psydk"
version = "0.1.0"
edition = "2021"
publish = false

[dependencies]
uuid = { version = "*", features = ["v4"] }
csscolorparser = "*"
image = "*"
winit = "*"
wgpu = "*"
pollster = "*"
bytemuck = "*"
log = "*"
fs4 = "*"
async-broadcast = "*"
async-channel = "*"
futures-lite = "*"
send_wrapper = "*"
sysinfo = "*"
