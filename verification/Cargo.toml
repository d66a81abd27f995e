[package]
name = "frame_session"
version = "0.1.0"
edition = "2021"
publish = false

[dependencies]
winapi = { version = "=0.3.9", features = ["d3d11", "d3d11_1", "d3dcommon", "dxgi", "dxgi1_2", "dxgiformat", "dxgitype", "minwindef", "windef", "winerror", "unknwnbase"] }
wio = "=0.2.2"
