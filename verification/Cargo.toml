[package]
name = "overlay_driver"
version = "0.1.0"
edition = "2021"
publish = false

[dependencies]
widestring = "0.4"
winapi = { version = "0.3", features = ["winuser", "d3d11", "d3dcommon", "dxgi", "dxgiformat", "dxgitype", "libloaderapi", "minwindef", "windef", "guiddef", "ntdef", "processthreadsapi", "winnt"] }
detour = { version = "0.8", default-features = false }
dll-syringe = "0.15"
lazy_static = "1"
log = "0.4"
simplelog = "0.12"
scopeguard = "1"
protobuf = "2"
