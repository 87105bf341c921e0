[package]
name = "nkcore"
version = "0.1.0"
edition = "2021"
publish = false

[dependencies]
pretty-name = "=1.0.0"
winit = { version = "=0.30.13", default-features = false, features = ["rwh_06", "x11"] }
raw-window-handle = "=0.6.2"
windows = { version = "=0.58.0", features = ["Foundation", "Graphics", "Graphics_Capture", "Graphics_DirectX", "Graphics_DirectX_Direct3D11", "UI", "Win32_Foundation", "Win32_Graphics_Direct3D", "Win32_Graphics_Direct3D11", "Win32_Graphics_Dxgi", "Win32_Graphics_Dxgi_Common", "Win32_System_WinRT", "Win32_System_WinRT_Direct3D11"] }
win32job = "=1.0.4"
anyhow = "=1.0.104"
euclid = "=0.22.14"
log = "=0.4.35"
pretty_env_logger = "=0.5.0"
tap = "1"
anyhow-auto-context = "*"
