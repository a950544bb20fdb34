[package]
name = "acure"
version = "0.1.0"
edition = "2021"
publish = false

[dependencies]
anyhow = "1"
thiserror = "1"
log = "0.4"
winapi = { version = "0.3", features = ["windef", "wingdi", "winuser"] }
windows = { version = "0.52", features = ["Foundation_Numerics", "Win32_Foundation", "Win32_Graphics_Direct2D", "Win32_Graphics_Direct2D_Common", "Win32_Graphics_Direct3D", "Win32_Graphics_Direct3D11", "Win32_Graphics_Dxgi", "Win32_Graphics_Dxgi_Common", "Win32_Graphics_Gdi", "Win32_Graphics_Imaging", "Win32_Graphics_OpenGL", "Win32_System_Com", "Win32_System_LibraryLoader", "Win32_System_Performance", "Win32_System_SystemInformation", "Win32_UI_Animation", "Win32_UI_WindowsAndMessaging"] }
gdiplus-sys2 = "*"
khronos-egl = { version = "*", features = ["static"] }
x11 = { version = "2", features = ["xlib", "xft", "xrender"] }
gl = "0.14"
